//! The loader-facing configuration derived from the authored package: the
//! serialized mod description and its dependency tables.
use vstd::prelude::*;

verus! {

/// One dependency on the community file host.
#[allow(non_snake_case)]
#[derive(Debug)]
pub struct GamebananaDependency {
    pub ItemType: String,
    pub ItemId: u64,
}

/// One dependency on the code host.
#[allow(non_snake_case)]
#[derive(Debug)]
pub struct GithubDependency {
    pub UserName: String,
    pub RepositoryName: String,
    pub UseReleaseTag: bool,
    pub AssetFileName: String,
}

/// Where one dependency updates from.
#[derive(Debug)]
pub enum DependencyConfig {
    Gamebanana(GamebananaDependency),
    Github(GithubDependency),
}

/// One dependency's update configuration and metadata file name.
#[allow(non_snake_case)]
#[derive(Debug)]
pub struct DependencyData {
    pub Config: DependencyConfig,
    pub ReleaseMetadataName: String,
}

/// The index of the first entry with a key.
pub open spec fn spec_dep_index(s: Seq<(String, DependencyData)>, key: Seq<char>) -> Option<int>
    decreases s.len(),
{
    if s.len() == 0 {
        None
    } else if s[0].0@ == key {
        Some(0)
    } else {
        match spec_dep_index(s.drop_first(), key) {
            Some(i) => Some(i + 1),
            None => None,
        }
    }
}

proof fn lemma_dep_index_extend(s: Seq<(String, DependencyData)>, key: Seq<char>, i: int)
    requires
        0 <= i <= s.len(),
        forall|j: int| 0 <= j < i ==> s[j].0@ != key,
    ensures
        i == s.len() ==> spec_dep_index(s, key) == None::<int>,
        i < s.len() && s[i].0@ == key ==> spec_dep_index(s, key) == Some(i),
    decreases s.len(),
{
    if s.len() > 0 {
        if s[0].0@ == key {
        } else {
            lemma_dep_index_extend(s.drop_first(), key, if i == 0 { 0 } else { i - 1 });
        }
    }
}

/// The dependency table: update data per dependency identifier, each
/// identifier held once.
#[allow(non_snake_case)]
#[derive(Debug)]
pub struct DepedencyDataHashMap {
    pub IdToConfigMap: Vec<(String, DependencyData)>,
}

impl DepedencyDataHashMap {
    pub fn new() -> (r: DepedencyDataHashMap)
        ensures
            r.IdToConfigMap@ == Seq::<(String, DependencyData)>::empty(),
    {
        DepedencyDataHashMap { IdToConfigMap: Vec::new() }
    }

    pub fn is_empty(&self) -> (r: bool)
        ensures
            r == (self.IdToConfigMap@.len() == 0),
    {
        self.IdToConfigMap.is_empty()
    }

    fn index_of(&self, k: &String) -> (r: Option<usize>)
        ensures
            match r {
                Some(i) => i < self.IdToConfigMap@.len() && spec_dep_index(
                    self.IdToConfigMap@,
                    k@,
                ) == Some(i as int),
                None => spec_dep_index(self.IdToConfigMap@, k@) == None::<int>,
            },
    {
        let mut i: usize = 0;
        while i < self.IdToConfigMap.len()
            invariant
                i <= self.IdToConfigMap@.len(),
                forall|j: int| 0 <= j < i ==> self.IdToConfigMap@[j].0@ != k@,
            decreases self.IdToConfigMap@.len() - i,
        {
            if self.IdToConfigMap[i].0 == *k {
                proof {
                    lemma_dep_index_extend(self.IdToConfigMap@, k@, i as int);
                }
                return Some(i);
            }
            i = i + 1;
        }
        proof {
            lemma_dep_index_extend(self.IdToConfigMap@, k@, i as int);
        }
        None
    }

    /// Stores dependency data under an identifier, yielding the replaced
    /// data if the identifier was already present.
    pub fn insert(&mut self, k: String, v: DependencyData) -> (r: Option<DependencyData>)
        ensures
            match spec_dep_index(old(self).IdToConfigMap@, k@) {
                Some(i) => r == Some(old(self).IdToConfigMap@[i].1) && final(self).IdToConfigMap@
                    == old(self).IdToConfigMap@.update(i, (k, v)),
                None => r is None && final(self).IdToConfigMap@ == old(self).IdToConfigMap@.push(
                    (k, v),
                ),
            },
    {
        match self.index_of(&k) {
            Some(i) => {
                let old_entry = self.IdToConfigMap.remove(i);
                self.IdToConfigMap.insert(i, (k, v));
                proof {
                    assert(self.IdToConfigMap@ =~= old(self).IdToConfigMap@.update(
                        i as int,
                        (k, v),
                    ));
                }
                Some(old_entry.1)
            },
            None => {
                self.IdToConfigMap.push((k, v));
                None
            },
        }
    }
}

/// The loader plugin data: the dependency tables by source.
#[allow(non_snake_case)]
#[derive(Debug)]
pub struct PluginData {
    pub GithubDependencies: DepedencyDataHashMap,
    pub GameBananaDependencies: DepedencyDataHashMap,
    pub GithubRelease: Option<GithubDependency>,
}

/// The loader-facing mod description.
#[allow(non_snake_case)]
#[derive(Debug)]
pub struct Package {
    pub ModId: String,
    pub ModName: String,
    pub ModAuthor: String,
    pub ModVersion: String,
    pub ModDescription: String,
    pub ModDll: String,
    pub ModIcon: String,
    pub ModR2RManagedDll32: String,
    pub ModR2RManagedDll64: String,
    pub ModNativeDll32: String,
    pub ModNativeDll64: String,
    pub Tags: Vec<String>,
    pub PluginData: PluginData,
    pub CanUnload: Option<bool>,
    pub HasExports: Option<bool>,
    pub IsLibrary: bool,
    pub ReleaseMetadataFileName: String,
    pub IsUniversalMod: bool,
    pub ModDependencies: Vec<String>,
    pub OptionalDependencies: Vec<String>,
    pub SupportedAppId: Vec<String>,
    pub ProjectUrl: String,
}

impl Package {
    pub fn get_mod_id(&self) -> (r: &str)
        ensures
            r@ == self.ModId@,
    {
        self.ModId.as_str()
    }
}

/// The loader configuration file could not be read back.
#[derive(Debug)]
pub struct InvalidModConfigJson(pub String);

/// The digest file handed to the generated sources: the mod identity and
/// the named executable digests.
#[derive(Debug)]
pub struct HashFileData {
    pub mod_id: String,
    pub mod_name: String,
    pub executable_hash: Vec<HashFileEntry>,
}

/// One named executable digest.
#[derive(Debug)]
pub struct HashFileEntry {
    pub name: String,
    pub hash: u64,
}

impl HashFileData {
    pub fn new(mod_id: String, mod_name: String) -> (r: HashFileData)
        ensures
            r.mod_id == mod_id,
            r.mod_name == mod_name,
            r.executable_hash@ == Seq::<HashFileEntry>::empty(),
    {
        HashFileData { mod_id, mod_name, executable_hash: Vec::new() }
    }

    /// Records one named digest.
    pub fn add_entry(&mut self, name: String, hash: u64)
        ensures
            final(self).executable_hash@ == old(self).executable_hash@.push(
                HashFileEntry { name, hash },
            ),
            final(self).mod_id == old(self).mod_id,
            final(self).mod_name == old(self).mod_name,
    {
        self.executable_hash.push(HashFileEntry { name, hash });
    }
}

} // verus!
