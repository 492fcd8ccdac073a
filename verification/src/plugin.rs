//! The segment-plugin interface: the traits a segment handler implements,
//! and the pure part of the example plugin.
//!
//! Loading a plugin from a dynamic library or a WebAssembly component is
//! outside this library; these are the shapes both sides agree on.

use vstd::prelude::*;

verus! {

/// A segment handler, as a native plugin implements it.
pub trait Segment {
    /// Runs before the split.
    fn scan(&mut self) -> u32;

    /// Does the split.
    fn split(&mut self) -> u32;
}

/// The root module of the example segment plugin library.
#[derive(Debug, PartialEq, Eq, Structural)]
pub struct ExampleSeg {}

/// What a WebAssembly segment plugin implements.
pub trait Guest {
    /// The plugin's trial entry point: greets the caller by name.
    fn testfunc(name: String) -> String;
}

/// The greeting the example plugin answers with.
pub open spec fn greeting_chars(name: Seq<char>) -> Seq<char> {
    "Greetings "@ + name + "! I'm a WASI plugin!"@
}

/// Builds the example plugin's greeting for a name.
pub fn greeting(name: &str) -> (r: String)
    ensures
        r@ == greeting_chars(name@),
{
    let mut s: String = "Greetings ".to_owned();
    s.append(name);
    s.append("! I'm a WASI plugin!");
    s
}

/// The example segment plugin; printing its banner is left to the host
/// around the library.
#[derive(Debug, PartialEq, Eq, Structural)]
pub struct MySegment {}

impl Guest for MySegment {
    fn testfunc(name: String) -> String {
        greeting(name.as_str())
    }
}

#[verifier::external_type_specification]
#[verifier::external_body]
pub struct ExLibHeader(abi_stable::library::LibHeader);

#[verifier::external_type_specification]
#[verifier::external_body]
pub struct ExLibraryError(abi_stable::library::LibraryError);

/// Relies on abi_stable::library::RawLibrary::path_in_directory: the full
/// path of a dynamic library with the given base name under the directory,
/// with the platform's prefix and suffix. The rendering depends on the
/// platform, so nothing is promised of it.
#[verifier::external_body]
fn library_path_in_directory(directory: &str, base_name: &str) -> (r: String)
{
    abi_stable::library::RawLibrary::path_in_directory(
        std::path::Path::new(directory),
        base_name,
        abi_stable::library::LibrarySuffix::NoSuffix,
    ).to_string_lossy().into_owned()
}

/// Relies on abi_stable::library::lib_header_from_path: loads the dynamic
/// library at the path and returns its abi_stable header. The outcome
/// depends on what is on disk, so nothing is promised of it.
#[verifier::external_body]
fn lib_header_at(path: &str) -> (r: Result<
    &'static abi_stable::library::LibHeader,
    abi_stable::library::LibraryError,
>)
{
    abi_stable::library::lib_header_from_path(std::path::Path::new(path))
}

/// Loads the segment plugin's root-module header from the library file in
/// the given directory, or reports why it could not be loaded. The outcome
/// depends on what is on disk.
pub fn load_root_module_in_directory(directory: &str) -> (r: Result<
    &'static abi_stable::library::LibHeader,
    abi_stable::library::LibraryError,
>) {
    let path = library_path_in_directory(directory, "splat_segment");
    lib_header_at(path.as_str())
}

} // verus!
