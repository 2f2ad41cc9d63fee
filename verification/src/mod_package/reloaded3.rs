//! The authored package description: identity, credits, update sources and
//! hook settings, as the package file declares them.
use vstd::prelude::*;

verus! {

/// What kind of package this is.
#[allow(non_snake_case)]
#[derive(Debug, Clone, Copy, PartialEq, Eq, Structural)]
pub enum PackageType {
    Mod,
    Profile,
    Translation,
    Tool,
}

/// One credited contributor.
#[allow(non_snake_case)]
#[derive(Debug)]
pub struct Credits {
    pub Name: String,
    pub Role: String,
    pub Url: Option<String>,
}

/// The update source on the community file host.
#[allow(non_snake_case)]
#[derive(Debug)]
pub struct GamebananaUpdateInfo {
    pub ItemType: String,
    pub ItemId: u64,
}

/// The update source on the code host.
#[allow(non_snake_case)]
#[derive(Debug)]
pub struct GithubUpdateInfo {
    pub UserName: String,
    pub RepositoryName: String,
}

/// The update source on the mod index.
#[allow(non_snake_case)]
#[derive(Debug)]
pub struct NexusUpdateInfo {
    pub GameID: u32,
    pub Id: u32,
}

/// Where updates come from, and under which asset names.
#[allow(non_snake_case)]
#[derive(Debug)]
pub struct UpdateSourceData {
    pub ReleaseMetadataName: Option<String>,
    pub AssetFileName: Option<String>,
    pub Gamebanana: Option<GamebananaUpdateInfo>,
    pub Github: Option<GithubUpdateInfo>,
    pub Nexus: Option<NexusUpdateInfo>,
}

impl UpdateSourceData {
    /// The asset file name, with the conventional default.
    pub fn get_asset_file_name(&self) -> (r: String)
        ensures
            r@ == (match self.AssetFileName {
                Some(v) => v@,
                None => "Mod.zip"@,
            }),
    {
        match &self.AssetFileName {
            Some(v) => v.clone(),
            None => "Mod.zip".to_owned(),
        }
    }
}

/// One dependency on another loader package.
#[allow(non_snake_case)]
#[derive(Debug)]
pub struct R2Dependency {
    pub Id: String,
    pub HasInterface: Option<bool>,
    pub UpdateSourceData: Option<UpdateSourceData>,
}

impl R2Dependency {
    /// The release metadata file name: the explicit one where given, else
    /// derived from the dependency's identifier.
    pub fn get_release_metadata_name(&self) -> (r: String)
        ensures
            r@ == (match self.UpdateSourceData {
                Some(u) => match u.ReleaseMetadataName {
                    Some(n) => n@,
                    None => self.Id@ + ".ReleaseMetadata.json"@,
                },
                None => self.Id@ + ".ReleaseMetadata.json"@,
            }),
    {
        match &self.UpdateSourceData {
            Some(u) => match &u.ReleaseMetadataName {
                Some(n) => n.clone(),
                None => {
                    let mut out = self.Id.clone();
                    out.append(".ReleaseMetadata.json");
                    out
                },
            },
            None => {
                let mut out = self.Id.clone();
                out.append(".ReleaseMetadata.json");
                out
            },
        }
    }
}

/// Which Cargo fields the package imports instead of restating.
#[allow(non_snake_case)]
#[derive(Debug, Clone, Copy, PartialEq, Eq, Structural)]
pub struct ExtCargoImport {
    pub Summary: Option<bool>,
    pub Version: Option<bool>,
    pub SourceUrl: Option<bool>,
    pub ProjectUrl: Option<bool>,
}

/// Which hooking framework the package binds to.
#[derive(Debug, Clone, Copy, PartialEq, Eq, Structural)]
pub enum HookLibrary {
    Reloaded2CSharpHooks,
    Reloaded2RustHooks,
    Reloaded3,
}

/// The hook settings of the package.
#[allow(non_snake_case)]
#[derive(Debug)]
pub struct ExtHookSettings {
    pub HookLibrary: HookLibrary,
    pub DefaultCallingConvention: String,
}

/// The package file could not be read as a package.
#[derive(Debug)]
pub struct InvalidPackageToml(pub String);

/// The authored package description.
#[allow(non_snake_case)]
#[derive(Debug)]
pub struct Package {
    pub Id: String,
    pub Reloaded2Id: Option<String>,
    pub LoggerPrefix: Option<String>,
    pub Name: String,
    pub Author: String,
    pub Summary: Option<String>,
    pub PackageType: PackageType,
    pub DocsFile: Option<String>,
    pub Version: Option<String>,
    pub IsDependency: bool,
    pub Tags: Vec<String>,
    pub Credits: Vec<Credits>,
    pub SourceUrl: Option<String>,
    pub ProjectUrl: Option<String>,
    pub ClientSide: bool,
    pub Icon: String,
    pub Reloaded2Icon: Option<String>,
    pub SupportedGames: Vec<String>,
    pub CargoImport: Option<ExtCargoImport>,
    pub UpdateSourceData: Option<UpdateSourceData>,
    pub R2Dependencies: Vec<R2Dependency>,
    pub HookSettings: ExtHookSettings,
}

impl Package {
    /// The identifier used on the loader side: the explicit loader
    /// identifier where given, else the package identifier.
    pub fn get_mod_id(&self) -> (r: &str)
        ensures
            r@ == (match self.Reloaded2Id {
                Some(n) => n@,
                None => self.Id@,
            }),
    {
        match &self.Reloaded2Id {
            Some(n) => n.as_str(),
            None => self.Id.as_str(),
        }
    }

    pub fn get_mod_name(&self) -> (r: &str)
        ensures
            r@ == self.Name@,
    {
        self.Name.as_str()
    }

    /// The release metadata file name: the explicit one where given, else
    /// derived from the loader identifier.
    pub fn get_release_metadata_name(&self) -> (r: String)
        ensures
            r@ == (match self.UpdateSourceData {
                Some(u) => match u.ReleaseMetadataName {
                    Some(n) => n@,
                    None => (match self.Reloaded2Id {
                        Some(i) => i@,
                        None => self.Id@,
                    }) + ".ReleaseMetadata.json"@,
                },
                None => (match self.Reloaded2Id {
                    Some(i) => i@,
                    None => self.Id@,
                }) + ".ReleaseMetadata.json"@,
            }),
    {
        match &self.UpdateSourceData {
            Some(u) => match &u.ReleaseMetadataName {
                Some(n) => n.clone(),
                None => {
                    let mut out = self.get_mod_id().to_owned();
                    out.append(".ReleaseMetadata.json");
                    out
                },
            },
            None => {
                let mut out = self.get_mod_id().to_owned();
                out.append(".ReleaseMetadata.json");
                out
            },
        }
    }

    /// Whether a field may be filled from Cargo: the import is enabled and
    /// the field is still empty.
    pub fn can_import_field_from_cargo(p: &Option<bool>, v: &Option<String>) -> (r: bool)
        ensures
            r == (v is None && p == Some(true)),
    {
        if v.is_none() {
            match p {
                Some(b) => *b,
                None => false,
            }
        } else {
            false
        }
    }

    /// Fills a field from a Cargo value where the import asks for it: an
    /// enabled import with no value at hand is a hard failure.
    pub fn import_string_from_cargo(
        p: &Option<bool>,
        v: &mut Option<String>,
        cargo_value: Option<String>,
    ) -> (r: Result<(), InvalidPackageToml>)
        ensures
            match r {
                Ok(_) => (*old(v) is None && p == Some(true)) ==> *final(v) == cargo_value,
                Err(_) => *old(v) is None && p == Some(true) && cargo_value is None,
            },
            !(*old(v) is None && p == Some(true)) ==> *final(v) == *old(v) && r is Ok,
    {
        if Self::can_import_field_from_cargo(p, v) {
            match cargo_value {
                Some(s) => {
                    *v = Some(s);
                    Ok(())
                },
                None => Err(InvalidPackageToml("value is missing".to_owned())),
            }
        } else {
            Ok(())
        }
    }

    /// Checks that a required field is populated.
    pub fn check_field_populated(p: &Option<String>) -> (r: Result<(), InvalidPackageToml>)
        ensures
            r is Ok <==> p is Some,
    {
        if p.is_none() {
            Err(InvalidPackageToml("value is missing".to_owned()))
        } else {
            Ok(())
        }
    }
}

} // verus!
