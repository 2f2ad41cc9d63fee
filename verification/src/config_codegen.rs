//! The configuration-schema model: the setting shapes a mod's
//! configuration file may declare. Generation of the bound sources is not
//! implemented by the framework yet.
use vstd::prelude::*;

verus! {

/// A choice setting: the options and the index of the default.
#[derive(Debug)]
pub struct ConfigEnum {
    pub choices: Vec<String>,
    pub default_choice: usize,
}

/// A whole-number setting with an inclusive range.
#[derive(Debug, Clone, Copy, PartialEq, Eq, Structural)]
pub struct ConfigInteger {
    pub min: u64,
    pub max: u64,
}

/// A whole-number slider with an inclusive range and a step.
#[derive(Debug, Clone, Copy, PartialEq, Eq, Structural)]
pub struct ConfigIntegerSlider {
    pub min: u64,
    pub max: u64,
    pub step: u64,
}

/// A file-picking setting.
#[derive(Debug)]
pub struct ConfigFile {
    pub filter: String,
    pub default_path: String,
    pub title: String,
    pub multiple: bool,
}

/// A folder-picking setting.
#[derive(Debug)]
pub struct ConfigFolder {
    pub default_path: String,
    pub title: String,
}

impl ConfigEnum {
    /// A choice setting is well formed when its default names one of its
    /// choices.
    pub open spec fn spec_wf(&self) -> bool {
        self.default_choice < self.choices@.len()
    }

    pub fn new(choices: Vec<String>, default_choice: usize) -> (r: Result<ConfigEnum, ()>)
        ensures
            match r {
                Ok(c) => c.choices == choices && c.default_choice == default_choice
                    && c.spec_wf(),
                Err(_) => default_choice >= choices@.len(),
            },
    {
        if default_choice < choices.len() {
            Ok(ConfigEnum { choices, default_choice })
        } else {
            Err(())
        }
    }
}

impl ConfigIntegerSlider {
    /// A slider is well formed when its range is ordered.
    pub open spec fn spec_wf(&self) -> bool {
        self.min <= self.max
    }
}

/// Emits the bound configuration sources. The framework's generator has no
/// output yet, so this reports success without producing anything.
pub fn generate() -> (r: Result<(), ()>)
    ensures
        r is Ok,
{
    Ok(())
}

} // verus!
