//! Where things are: the roots and fixed names that every operation works from,
//! and the blobs that are written out.

use crate::path::{ascii, join, joined, text};
use vstd::prelude::*;

verus! {

/// The name of the module's directory below the module root.
pub open spec fn module_name() -> Seq<u8> {
    text("rezygisk"@)
}

/// The module's property file, seen from the module root.
pub open spec fn module_prop_name() -> Seq<u8> {
    text("rezygisk/module.prop"@)
}

/// The installer helper, seen from the secure directory.
pub open spec fn installer_name() -> Seq<u8> {
    text("magisk/module_installer.sh"@)
}

/// The shared utility script, seen from the secure directory.
pub open spec fn util_name() -> Seq<u8> {
    text("magisk/util_functions.sh"@)
}

/// The path of the marker that a finished installation leaves behind.
pub open spec fn marker_path() -> Seq<u8> {
    text("/data/local/tmp/rezygisk"@)
}

/// The text that names, in a command line, the process whose start the
/// concealment waits for.
pub open spec fn shell_tag() -> Seq<u8> {
    text("com.android.shell"@)
}

/// The places and names an installation is bound to.
#[derive(Clone, Debug)]
pub struct Config {
    /// The directory below which installed modules live.
    pub module_root: Vec<u8>,
    /// The path of the marker file.
    pub sentinel: Vec<u8>,
    /// The text looked for in the command lines of running processes.
    pub marker: Vec<u8>,
}

/// The model of a [`Config`].
pub struct ConfigView {
    pub module_root: Seq<u8>,
    pub sentinel: Seq<u8>,
    pub marker: Seq<u8>,
}

impl ConfigView {
    /// The stock configuration for a module root.
    pub open spec fn stock(module_root: Seq<u8>) -> ConfigView {
        ConfigView { module_root, sentinel: marker_path(), marker: shell_tag() }
    }

    /// The directory of the installed module.
    pub open spec fn module_dir(self) -> Seq<u8> {
        joined(self.module_root, module_name())
    }

    /// The module's property file, which doubles as its mount point.
    pub open spec fn module_prop(self) -> Seq<u8> {
        joined(self.module_root, module_prop_name())
    }
}

/// The installer helper below a secure directory.
pub open spec fn installer_at(secure_dir: Seq<u8>) -> Seq<u8> {
    joined(secure_dir, installer_name())
}

/// The shared utility script below a secure directory.
pub open spec fn util_at(secure_dir: Seq<u8>) -> Seq<u8> {
    joined(secure_dir, util_name())
}

impl View for Config {
    type V = ConfigView;

    open spec fn view(&self) -> ConfigView {
        ConfigView {
            module_root: self.module_root@,
            sentinel: self.sentinel@,
            marker: self.marker@,
        }
    }
}

impl Config {
    /// The stock configuration: the fixed marker path and process tag, below
    /// the given module root.
    pub fn new(module_root: Vec<u8>) -> (cfg: Config)
        ensures
            cfg@ == ConfigView::stock(module_root@),
    {
        proof {
            reveal_strlit("/data/local/tmp/rezygisk");
            reveal_strlit("com.android.shell");
        }
        Config {
            module_root,
            sentinel: ascii("/data/local/tmp/rezygisk"),
            marker: ascii("com.android.shell"),
        }
    }

    /// The directory of the installed module.
    pub fn module_dir(&self) -> (path: Vec<u8>)
        ensures
            path@ == self@.module_dir(),
    {
        proof {
            reveal_strlit("rezygisk");
        }
        join(&self.module_root, &ascii("rezygisk"))
    }

    /// The module's property file.
    pub fn module_prop(&self) -> (path: Vec<u8>)
        ensures
            path@ == self@.module_prop(),
    {
        proof {
            reveal_strlit("rezygisk/module.prop");
        }
        join(&self.module_root, &ascii("rezygisk/module.prop"))
    }
}

/// The installer helper below `secure_dir`.
pub fn installer_path(secure_dir: &Vec<u8>) -> (path: Vec<u8>)
    ensures
        path@ == installer_at(secure_dir@),
{
    proof {
        reveal_strlit("magisk/module_installer.sh");
    }
    join(secure_dir, &ascii("magisk/module_installer.sh"))
}

/// The shared utility script below `secure_dir`.
pub fn util_path(secure_dir: &Vec<u8>) -> (path: Vec<u8>)
    ensures
        path@ == util_at(secure_dir@),
{
    proof {
        reveal_strlit("magisk/util_functions.sh");
    }
    join(secure_dir, &ascii("magisk/util_functions.sh"))
}

/// The blobs that the operations write out. Their contents are of no concern
/// here.
#[derive(Clone, Debug)]
pub struct Assets {
    /// The module's archive.
    pub payload: Vec<u8>,
    /// The installer helper script.
    pub installer_script: Vec<u8>,
    /// The utility script that stands in while the installer runs.
    pub util_script: Vec<u8>,
}

} // verus!
