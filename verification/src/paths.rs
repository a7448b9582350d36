//! Construction of the paths and URLs the pipeline touches.

use vstd::prelude::*;
use vstd::string::*;
use crate::package::VoltPackage;
use crate::store_key::encode_name;
use crate::store_key::store_key;

verus! {

/// The file name of a package's temporary download artifact:
/// `<store_key>@<version>.tgz`.
pub fn tarball_file_name(pkg: &VoltPackage) -> (r: String)
    ensures
        r@ == encode_name(pkg.name@) + "@"@ + pkg.version@ + ".tgz"@,
{
    store_key(pkg.name.as_str()).concat("@").concat(pkg.version.as_str()).concat(".tgz")
}

/// Where a download artifact lives: under the tool's namespace directory
/// inside the system temporary directory.
pub fn temp_artifact_path(temp_dir: &str, file_name: &str) -> (r: String)
    ensures
        r@ == temp_dir@ + "/volt/"@ + file_name@,
{
    String::from_str(temp_dir).concat("/volt/").concat(file_name)
}

/// The canonical path of a package's store entry: one directory per store
/// key under the store root.
pub fn store_entry_path(volt_dir: &str, key: &str) -> (r: String)
    ensures
        r@ == volt_dir@ + "/"@ + key@,
{
    String::from_str(volt_dir).concat("/").concat(key)
}

/// The project-side link for a package: its bare name under the project's
/// dependency directory.
pub fn dep_link_path(node_modules_dir: &str, package_name: &str) -> (r: String)
    ensures
        r@ == node_modules_dir@ + "/"@ + package_name@,
{
    String::from_str(node_modules_dir).concat("/").concat(package_name)
}

/// The registry URL that serves a package's metadata document.
pub fn volt_api_url(package_name: &str) -> (r: String)
    ensures
        r@ == "http://volt-api.b-cdn.net/"@ + package_name@ + ".json"@,
{
    String::from_str("http://volt-api.b-cdn.net/").concat(package_name).concat(".json")
}

} // verus!
