//! Naming of the Java libraries that the bridge ships: the JAR files of the
//! Maven artifacts it depends on, and the native library of the JVM binding.
use vstd::prelude::*;
use vstd::string::*;

use crate::config::spigot::list_contains;
use crate::text::{has_prefix, split_on, split_spec, starts_with, strings_view, lemma_split_nonempty};

verus! {

/// A Maven artifact: group, artifact and version.
#[derive(Debug, Clone)]
pub struct MavenDependency {
    pub group: String,
    pub artifact: String,
    pub version: String,
}

/// The file an artifact is stored in: `<artifact>-<version>.jar`.
pub open spec fn jar_file_name_spec(artifact: Seq<char>, version: Seq<char>) -> Seq<char> {
    artifact + "-"@ + version + ".jar"@
}

/// The file an artifact is stored in.
pub fn jar_file_name(artifact: &str, version: &str) -> (r: String)
    ensures
        r@ == jar_file_name_spec(artifact@, version@),
{
    let mut r = String::from_str(artifact);
    r.append("-");
    r.append(version);
    r.append(".jar");
    r
}

/// The Maven coordinate of an artifact: `<group>:<artifact>:<version>`.
pub fn maven_coordinate(dep: &MavenDependency) -> (r: String)
    ensures
        r@ == dep.group@ + ":"@ + dep.artifact@ + ":"@ + dep.version@,
{
    let mut r = dep.group.clone();
    r.append(":");
    r.append(dep.artifact.as_str());
    r.append(":");
    r.append(dep.version.as_str());
    r
}

/// The JAR files of a list of artifacts, in the same order.
pub fn expected_jar_names(deps: &Vec<MavenDependency>) -> (r: Vec<String>)
    ensures
        r@.len() == deps@.len(),
        forall|i: int| 0 <= i < deps@.len() ==> (#[trigger] r@[i])@ == jar_file_name_spec(
            deps@[i].artifact@,
            deps@[i].version@,
        ),
{
    let mut r: Vec<String> = Vec::new();
    let mut i: usize = 0;
    while i < deps.len()
        invariant
            i <= deps@.len(),
            r@.len() == i,
            forall|j: int| 0 <= j < i ==> (#[trigger] r@[j])@ == jar_file_name_spec(
                deps@[j].artifact@,
                deps@[j].version@,
            ),
        decreases deps@.len() - i,
    {
        r.push(jar_file_name(deps[i].artifact.as_str(), deps[i].version.as_str()));
        i += 1;
    }
    r
}

/// Whether a file of the Java assets directory is kept: the JVM binding's own
/// JARs and the expected artifact files are; any other file is stale.
pub open spec fn keeps_jasset_spec(file_name: Seq<char>, expected: Seq<Seq<char>>) -> bool {
    has_prefix(file_name, "j4rs-"@) || expected.contains(file_name)
}

/// Whether a file of the Java assets directory is kept.
pub fn keeps_jasset(file_name: &str, expected: &Vec<String>) -> (r: bool)
    ensures
        r == keeps_jasset_spec(file_name@, strings_view(expected@)),
{
    if starts_with(file_name, "j4rs-") {
        return true;
    }
    let found = list_contains(expected, file_name);
    proof {
        if found {
            let i = choose|i: int| 0 <= i < expected@.len() && (#[trigger] expected@[i])@ == file_name@;
            assert(strings_view(expected@)[i] == file_name@);
        } else {
            assert forall|i: int| 0 <= i < strings_view(expected@).len() implies strings_view(
                expected@,
            )[i] != file_name@ by {
                assert(strings_view(expected@)[i] == expected@[i]@);
            }
        }
    }
    found
}

/// The name the native library of the JVM binding is installed under: the part
/// of its built name before the first `-`, with its extension.
pub open spec fn native_library_name_spec(built_name: Seq<char>, extension: Seq<char>) -> Seq<char> {
    split_spec(built_name, '-')[0] + "."@ + extension
}

/// The name the native library of the JVM binding is installed under.
pub fn native_library_name(built_name: &str, extension: &str) -> (r: String)
    ensures
        r@ == native_library_name_spec(built_name@, extension@),
{
    let parts = split_on(built_name, '-');
    proof {
        lemma_split_nonempty(built_name@, '-');
    }
    assert(parts@[0]@ == strings_view(parts@)[0]);
    let mut r = parts[0].clone();
    r.append(".");
    r.append(extension);
    r
}

/// Every file named in the expected list is kept, wherever it stands in the
/// list, and so is every file of the JVM binding (`j4rs-...`); any other file
/// is not kept.
pub proof fn law_kept_jassets(file_name: Seq<char>, expected: Seq<Seq<char>>, i: int)
    ensures
        0 <= i < expected.len() && expected[i] == file_name ==> keeps_jasset_spec(file_name, expected),
        has_prefix(file_name, "j4rs-"@) ==> keeps_jasset_spec(file_name, expected),
        keeps_jasset_spec(file_name, expected) ==> has_prefix(file_name, "j4rs-"@) || exists|j: int|
            0 <= j < expected.len() && #[trigger] expected[j] == file_name,
{
    if 0 <= i < expected.len() && expected[i] == file_name {
        assert(expected.contains(file_name));
    }
}

} // verus!
