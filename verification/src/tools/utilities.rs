//! Paths of the test program's files, which depend on the directory that the
//! program is started in.

use vstd::prelude::*;
use vstd::string::*;

verus! {

/// The place of the last `delimiter` in `path`, or -1 where there is none.
pub open spec fn last_delimiter(path: Seq<char>, delimiter: char) -> int
    decreases path.len(),
{
    if path.len() == 0 {
        -1
    } else if path.last() == delimiter {
        path.len() - 1
    } else {
        last_delimiter(path.drop_last(), delimiter)
    }
}

/// The last delimiter lies within the path, and none follows it.
pub proof fn lemma_last_delimiter(path: Seq<char>, delimiter: char)
    ensures
        -1 <= last_delimiter(path, delimiter) < path.len(),
        last_delimiter(path, delimiter) >= 0 ==> path[last_delimiter(path, delimiter)] == delimiter,
        forall|i: int| last_delimiter(path, delimiter) < i < path.len() ==> path[i] != delimiter,
    decreases path.len(),
{
    if path.len() > 0 && path.last() != delimiter {
        let front = path.drop_last();
        lemma_last_delimiter(front, delimiter);
        assert forall|i: int| last_delimiter(path, delimiter) < i < path.len() implies path[i]
            != delimiter by {
            if i < front.len() {
                assert(front[i] == path[i]);
            }
        }
    }
}

/// The name of the directory that a path leads to: what follows the last
/// delimiter. A path without a delimiter has none.
pub fn get_current_dir_name(full_path: &str, delimiter: char) -> (name: Option<String>)
    ensures
        name is Some <==> last_delimiter(full_path@, delimiter) >= 0,
        name matches Some(dir) ==> dir@ == full_path@.subrange(
            last_delimiter(full_path@, delimiter) + 1,
            full_path@.len() as int,
        ),
{
    let len: usize = full_path.unicode_len();
    let mut end: usize = len;
    assert(full_path@.take(len as int) =~= full_path@);
    while end > 0
        invariant
            end <= len == full_path@.len(),
            last_delimiter(full_path@, delimiter) == last_delimiter(
                full_path@.take(end as int),
                delimiter,
            ),
        decreases end,
    {
        let ghost upto = full_path@.take(end as int);
        if full_path.get_char(end - 1) == delimiter {
            assert(upto.last() == delimiter);
            let dir: &str = full_path.substring_char(end, len);
            return Some(String::from_str(dir));
        }
        assert(upto.drop_last() =~= full_path@.take(end as int - 1));
        end = end - 1;
    }
    assert(full_path@.take(0).len() == 0);
    None
}

/// The directory of the test program's shaders, as seen from the directory
/// `current_dir_name` that the program is started in: from its own directory
/// `e2e-tests`, or from the one above it.
pub fn get_path_to_shaders(current_dir_name: &str) -> (path: String)
    ensures
        path@ == if current_dir_name@ == "e2e-tests"@ {
            "shaders/"@
        } else {
            "e2e-tests/shaders/"@
        },
{
    if String::from_str(current_dir_name) == String::from_str("e2e-tests") {
        String::from_str("shaders/")
    } else {
        String::from_str("e2e-tests/shaders/")
    }
}

/// The directory of the scripts that compare pictures, as seen from the
/// directory that the program is started in.
pub fn get_path_to_python_scripts(current_dir_name: &str) -> (path: String)
    ensures
        path@ == if current_dir_name@ == "e2e-tests"@ {
            "src/tools/python_scripts/"@
        } else {
            "e2e-tests/src/tools/python_scripts/"@
        },
{
    if String::from_str(current_dir_name) == String::from_str("e2e-tests") {
        String::from_str("src/tools/python_scripts/")
    } else {
        String::from_str("e2e-tests/src/tools/python_scripts/")
    }
}

/// The path of a shader of the test program.
pub fn shader_path(current_dir_name: &str, shader_name: &str) -> (path: String)
    ensures
        path@ == (if current_dir_name@ == "e2e-tests"@ {
            "shaders/"@
        } else {
            "e2e-tests/shaders/"@
        }) + shader_name@,
{
    get_path_to_shaders(current_dir_name).concat(shader_name)
}

} // verus!
