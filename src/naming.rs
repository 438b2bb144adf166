use vstd::prelude::*;
use vstd::string::*;

use crate::error::PluginError;

verus! {

/// A platform with a known naming convention for shared libraries.
#[derive(Debug, Clone, Copy, PartialEq, Eq, Structural)]
pub enum Platform {
    Linux,
    MacOs,
    Windows,
}

/// The platform that an operating system name (as Rust reports it) stands for.
pub open spec fn platform_named(os: Seq<char>) -> Option<Platform> {
    if os == "linux"@ {
        Some(Platform::Linux)
    } else if os == "macos"@ {
        Some(Platform::MacOs)
    } else if os == "windows"@ {
        Some(Platform::Windows)
    } else {
        None
    }
}

impl Platform {
    /// The file name of the library of the plugin `name` on this platform.
    pub open spec fn spec_file_name(self, name: Seq<char>) -> Seq<char> {
        match self {
            Platform::Linux => "lib"@ + name + ".so"@,
            Platform::MacOs => "lib"@ + name + ".dylib"@,
            Platform::Windows => name + ".dll"@,
        }
    }

    pub fn file_name(&self, name: &str) -> (r: String)
        ensures
            r@ == self.spec_file_name(name@),
    {
        match self {
            Platform::Linux => {
                let mut s = String::from_str("lib");
                s.append(name);
                s.append(".so");
                s
            },
            Platform::MacOs => {
                let mut s = String::from_str("lib");
                s.append(name);
                s.append(".dylib");
                s
            },
            Platform::Windows => {
                let mut s = String::from_str(name);
                s.append(".dll");
                s
            },
        }
    }
}

/// Whether two strings hold the same characters.
fn same_text(a: &str, b: &str) -> (r: bool)
    ensures
        r == (a@ == b@),
{
    let n = a.unicode_len();
    if n != b.unicode_len() {
        return false;
    }
    let mut i: usize = 0;
    while i < n
        invariant
            n == a@.len(),
            n == b@.len(),
            i <= n,
            forall|j: int| 0 <= j < i ==> a@[j] == b@[j],
        decreases n - i,
    {
        if a.get_char(i) != b.get_char(i) {
            return false;
        }
        i += 1;
    }
    assert(a@ =~= b@);
    true
}

/// The platform named `os`, or `UnsupportedPlatform` where no convention is known.
pub fn platform_of(os: &str) -> (r: Result<Platform, PluginError>)
    ensures
        r == match platform_named(os@) {
            Some(p) => Ok::<Platform, PluginError>(p),
            None => Err(PluginError::UnsupportedPlatform),
        },
{
    if same_text(os, "linux") {
        Ok(Platform::Linux)
    } else if same_text(os, "macos") {
        Ok(Platform::MacOs)
    } else if same_text(os, "windows") {
        Ok(Platform::Windows)
    } else {
        Err(PluginError::UnsupportedPlatform)
    }
}

/// The library file name of the plugin `name` on the operating system `os`,
/// or `None` where `os` has no known convention.
pub open spec fn file_name_for(os: Seq<char>, name: Seq<char>) -> Option<Seq<char>> {
    match platform_named(os) {
        Some(p) => Some(p.spec_file_name(name)),
        None => None,
    }
}

/// The path the library is loaded from: inside `dir` where one is given, else
/// the bare file name, which the system's library search path resolves.
pub open spec fn path_for(dir: Option<Seq<char>>, file: Seq<char>) -> Seq<char> {
    match dir {
        Some(d) => d + "/"@ + file,
        None => file,
    }
}

/// The characters of an optional directory.
pub open spec fn dir_view(dir: Option<&str>) -> Option<Seq<char>> {
    match dir {
        Some(d) => Some(d@),
        None => None,
    }
}

pub fn library_file_name(os: &str, name: &str) -> (r: Result<String, PluginError>)
    ensures
        match file_name_for(os@, name@) {
            Some(f) => r matches Ok(s) && s@ == f,
            None => r == Err::<String, PluginError>(PluginError::UnsupportedPlatform),
        },
{
    match platform_of(os) {
        Ok(p) => Ok(p.file_name(name)),
        Err(e) => Err(e),
    }
}

/// The path of the library of the plugin `name` on the operating system `os`,
/// in the directory `dir` if one is given.
pub fn library_path(os: &str, dir: Option<&str>, name: &str) -> (r: Result<String, PluginError>)
    ensures
        match file_name_for(os@, name@) {
            Some(f) => r matches Ok(s) && s@ == path_for(dir_view(dir), f),
            None => r == Err::<String, PluginError>(PluginError::UnsupportedPlatform),
        },
{
    let file = match library_file_name(os, name) {
        Ok(f) => f,
        Err(e) => return Err(e),
    };
    match dir {
        Some(d) => {
            let mut s = String::from_str(d);
            s.append("/");
            s.append(file.as_str());
            Ok(s)
        },
        None => Ok(file),
    }
}

/// The library of the plugin `name` is `lib<name>.so` on Linux,
/// `lib<name>.dylib` on macOS and `<name>.dll` on Windows; on any other
/// operating system there is none.
pub proof fn lemma_file_names_by_platform(os: Seq<char>, name: Seq<char>)
    ensures
        file_name_for("linux"@, name) == Some("lib"@ + name + ".so"@),
        file_name_for("macos"@, name) == Some("lib"@ + name + ".dylib"@),
        file_name_for("windows"@, name) == Some(name + ".dll"@),
        os != "linux"@ && os != "macos"@ && os != "windows"@ ==> file_name_for(os, name) is None,
{
    reveal_strlit("linux");
    reveal_strlit("macos");
    reveal_strlit("windows");
    assert("macos"@[0] != "linux"@[0]);
    assert("windows"@[0] != "linux"@[0]);
    assert("windows"@[0] != "macos"@[0]);
}

} // verus!
