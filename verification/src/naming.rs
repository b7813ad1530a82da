//! Names that are derived from the file name of a source image: the name
//! under which it is listed, and the name of the file it is converted to.

use crate::settings::{extension_of, file_extension_for_format, ConversionSettings};
use vstd::prelude::*;

verus! {

/// A dot stands at `i`, and not at the start of the name.
pub open spec fn dot_at(name: Seq<char>, i: int) -> bool {
    1 <= i < name.len() && name[i] == '.'
}

/// The first dot of `name` that does not start it stands at `i`.
pub open spec fn first_dot_at(name: Seq<char>, i: int) -> bool {
    dot_at(name, i) && forall|j: int| 1 <= j < i ==> name[j] != '.'
}

/// The last dot of `name` that does not start it stands at `i`.
pub open spec fn last_dot_at(name: Seq<char>, i: int) -> bool {
    dot_at(name, i) && forall|j: int| i < j < name.len() ==> name[j] != '.'
}

/// The part of a file name before its first dot; a dot that starts the
/// name does not count. A name without such a dot is its own prefix.
pub open spec fn file_prefix_of(name: Seq<char>) -> Seq<char> {
    if exists|i: int| first_dot_at(name, i) {
        name.take(choose|i: int| first_dot_at(name, i))
    } else {
        name
    }
}

/// The file name without its final extension: the part before its last
/// dot; a dot that starts the name does not count. A name without such a
/// dot is its own stem.
pub open spec fn file_stem_of(name: Seq<char>) -> Seq<char> {
    if exists|i: int| last_dot_at(name, i) {
        name.take(choose|i: int| last_dot_at(name, i))
    } else {
        name
    }
}

/// The name under which a source image is listed when its path has no file
/// name.
pub open spec fn nameless() -> Seq<char> {
    "Kein Dateiname"@
}

/// The name under which a source image is listed: the prefix of its file
/// name.
pub open spec fn display_name_of(file_name: Option<Seq<char>>) -> Seq<char> {
    match file_name {
        Some(name) => file_prefix_of(name),
        None => nameless(),
    }
}

/// The name of the file that a source image is converted to: the stem of
/// its file name, a dot, and the extension of the format.
pub open spec fn output_name_of(file_name: Seq<char>, settings: ConversionSettings) -> Seq<char> {
    file_stem_of(file_name) + seq!['.'] + extension_of(settings.variant_of())
}

/// The part of a file name before its first dot that does not start it.
pub fn file_prefix(file_name: &str) -> (prefix: String)
    ensures
        prefix@ == file_prefix_of(file_name@),
{
    let len = file_name.unicode_len();
    let mut i: usize = 1;
    while i < len
        invariant
            1 <= i,
            len == file_name@.len(),
            forall|j: int| 1 <= j < i ==> file_name@[j] != '.',
        decreases len - i,
    {
        if file_name.get_char(i) == '.' {
            proof {
                assert(first_dot_at(file_name@, i as int));
                let chosen = choose|k: int| first_dot_at(file_name@, k);
                assert(chosen == i);
            }
            return String::from_str(file_name.substring_char(0, i));
        }
        i += 1;
    }
    proof {
        assert(!exists|k: int| first_dot_at(file_name@, k));
        assert(file_name@.subrange(0, len as int) =~= file_name@);
    }
    String::from_str(file_name)
}

/// The file name without its final extension.
pub fn file_stem(file_name: &str) -> (stem: String)
    ensures
        stem@ == file_stem_of(file_name@),
{
    let len = file_name.unicode_len();
    let mut i: usize = len;
    while i > 1
        invariant
            i <= len,
            len == file_name@.len(),
            forall|j: int| i <= j < len ==> file_name@[j] != '.',
        decreases i,
    {
        i -= 1;
        if file_name.get_char(i) == '.' {
            proof {
                assert(last_dot_at(file_name@, i as int));
                let chosen = choose|k: int| last_dot_at(file_name@, k);
                assert(chosen == i);
            }
            return String::from_str(file_name.substring_char(0, i));
        }
    }
    proof {
        assert(!exists|k: int| last_dot_at(file_name@, k));
    }
    String::from_str(file_name)
}

/// The name under which a source image is listed.
pub fn display_name(file_name: Option<&str>) -> (name: String)
    ensures
        name@ == display_name_of(
            match file_name {
                Some(given) => Some(given@),
                None => None,
            },
        ),
{
    match file_name {
        Some(given) => file_prefix(given),
        None => String::from_str("Kein Dateiname"),
    }
}

/// The name of the file that the source with this file name is converted
/// to. It is placed in the output directory by whoever writes it, and
/// replaces a file of that name.
pub fn output_file_name(file_name: &str, settings: &ConversionSettings) -> (name: String)
    ensures
        name@ == output_name_of(file_name@, *settings),
{
    proof {
        reveal_strlit(".");
    }
    let mut name = file_stem(file_name);
    name.append(".");
    assert("."@ =~= seq!['.']);
    name.append(file_extension_for_format(settings));
    name
}

} // verus!
