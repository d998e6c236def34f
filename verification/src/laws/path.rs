//! Laws of paths.

use vstd::prelude::*;
use vstd::utf8;

use crate::chars;
use crate::path;
use crate::path::FsPath;

verus! {

/// A name that can stand between separators: at least one byte, no separator,
/// and not the dot that names nothing.
pub open spec fn is_component(name: Seq<u8>) -> bool {
    name.len() > 0 && !name.contains(47u8) && name != seq![46u8]
}

/// A path is the bytes that it is made of, all of them.
pub proof fn law_paths_are_their_bytes(path: FsPath, list: Seq<FsPath>)
    ensures
        path@ == path.bytes@,
        path::paths(list).len() == list.len(),
        forall|i: int| 0 <= i < list.len() ==> #[trigger] path::paths(list)[i] == list[i].bytes@,
{
}

/// Paths with a separator between them have the components of both. A name is
/// its own component; nothing, and a dot, have none.
pub proof fn law_components_add_up(first: Seq<u8>, second: Seq<u8>)
    ensures
        path::components(first + seq![47u8] + second) == path::components(first)
            + path::components(second),
        is_component(first) ==> path::components(first) == seq![first],
        path::components(Seq::<u8>::empty()) == Seq::<Seq<u8>>::empty(),
        path::components(seq![46u8]) == Seq::<Seq<u8>>::empty(),
    decreases first.len(),
{
    let p = chars::other_than(path::SEPARATOR);
    let all = first + seq![47u8] + second;
    let n = chars::prefix_len(first, p);
    chars::lemma_prefix_len(first, p);
    assert forall|j: int| 0 <= j < n implies first[j] != path::SEPARATOR by {
        assert(p(first[j]));
    }
    path::lemma_first_component(first, n);
    assert forall|j: int| 0 <= j < n implies all[j] != path::SEPARATOR by {
        assert(all[j] == first[j]);
    }
    if n < first.len() {
        assert(all[n] == first[n]);
    } else {
        assert(all[n] == 47u8);
    }
    path::lemma_first_component(all, n);
    assert(all.take(n) =~= first.take(n));
    if n < first.len() {
        assert(all.skip(n + 1) =~= first.skip(n + 1) + seq![47u8] + second);
        law_components_add_up(first.skip(n + 1), second);
    } else {
        assert(all.skip(n + 1) =~= second);
    }
    assert(path::components(all) =~= path::components(first) + path::components(second));
    if is_component(first) {
        assert forall|j: int| 0 <= j < first.len() implies first[j] != path::SEPARATOR by {
            assert(first.contains(first[j]));
        }
        path::lemma_first_component(first, first.len() as int);
        assert(first.take(first.len() as int) =~= first);
        assert(path::components(first) =~= seq![first]);
    }
    path::lemma_first_component(Seq::<u8>::empty(), 0);
    path::lemma_first_component(seq![46u8], 1);
    assert(seq![46u8].take(1) =~= seq![path::DOT]);
}

/// A path is absolute where it starts with a separator.
pub proof fn law_absolute_paths_start_with_a_separator(path: Seq<u8>)
    ensures
        path::is_absolute(path) <==> path.len() > 0 && path[0] == 47u8,
{
}

/// A file is named by what follows the last separator, whatever stands before
/// and whatever separators follow; two dots name none.
pub proof fn law_files_are_named_by_their_last_component(dir: Seq<u8>, name: Seq<u8>)
    requires
        is_component(name),
    ensures
        name != seq![46u8, 46u8] ==> path::file_name(name) == Some(name) && path::file_name(
            dir + seq![47u8] + name,
        ) == Some(name) && path::file_name(dir + seq![47u8] + name + seq![47u8]) == Some(name),
        path::file_name(dir + seq![47u8] + seq![46u8, 46u8]) is None,
        path::file_name(Seq::<u8>::empty()) is None,
{
    let none = Seq::<u8>::empty();
    law_components_add_up(dir, name);
    law_components_add_up(name, none);
    let whole = dir + seq![47u8] + name;
    law_components_add_up(whole, none);
    assert(whole + seq![47u8] + none =~= whole + seq![47u8]);
    assert(path::components(whole) + path::components(none) =~= path::components(whole));
    assert(path::components(whole).last() == name);
    let up = seq![46u8, 46u8];
    assert(is_component(up)) by {
        if up.contains(47u8) {
            let i = choose|i: int| 0 <= i < up.len() && up[i] == 47u8;
        }
        assert(up.len() != seq![46u8].len());
    }
    law_components_add_up(dir, up);
    law_components_add_up(up, none);
    assert(path::components(dir + seq![47u8] + up).last() == up);
}

/// What is named in an absolute directory stands in it; what stands in a
/// directory has exactly one component more.
pub proof fn law_named_in_a_directory_stands_in_it(
    dir: Seq<u8>,
    name: Seq<u8>,
    path: Seq<u8>,
)
    requires
        dir.len() > 0,
        dir[0] == 47u8,
        is_component(name),
    ensures
        path::stands_in(dir + seq![47u8] + name, dir),
        path::stands_in(path, dir) <==> path.len() > 0 && path[0] == 47u8 && exists|last: Seq<u8>|
            path::components(path) == #[trigger] path::components(dir).push(last),
{
    law_components_add_up(dir, name);
    law_components_add_up(name, name);
    let whole = dir + seq![47u8] + name;
    assert(whole[0] == dir[0]);
    assert(path::components(whole).drop_last() =~= path::components(dir));
    if path::stands_in(path, dir) {
        let parts = path::components(path);
        assert(parts =~= path::components(dir).push(parts.last()));
    }
    if exists|last: Seq<u8>| path::components(path) == #[trigger] path::components(dir).push(last) {
        let last = choose|last: Seq<u8>|
            path::components(path) == #[trigger] path::components(dir).push(last);
        assert(path::components(path).drop_last() =~= path::components(dir));
    }
}

/// Nothing stands in a directory that is not given from the root.
pub proof fn law_nothing_stands_in_a_relative_directory(path: Seq<u8>, dir: Seq<u8>)
    requires
        dir.len() == 0 || dir[0] != 47u8,
    ensures
        !path::stands_in(path, dir),
{
}

/// A path is continued behind one separator; an absolute path replaces it.
pub proof fn law_paths_are_joined_by_one_separator(path: Seq<u8>, tail: Seq<u8>)
    ensures
        tail.len() > 0 && tail[0] == 47u8 ==> path::joined_path(path, tail) == tail,
        (tail.len() == 0 || tail[0] != 47u8) && path.len() > 0 && path.last() != 47u8
            ==> path::joined_path(path, tail) == path + seq![47u8] + tail,
        (tail.len() == 0 || tail[0] != 47u8) && (path.len() == 0 || path.last() == 47u8)
            ==> path::joined_path(path, tail) == path + tail,
{
    assert(path.push(47u8) =~= path + seq![47u8]);
}

/// Bytes have a text exactly where they are the UTF-8 form of one, and then that
/// text is shown.
pub proof fn law_texts_of_bytes(bytes: Seq<u8>, text: Seq<char>)
    ensures
        path::utf8_text(bytes) == Some(text) <==> bytes == utf8::encode_utf8(text),
        bytes == utf8::encode_utf8(text) ==> path::shown(bytes) == text,
{
    path::law_new_path_text(text);
    if path::utf8_text(bytes) == Some(text) {
        utf8::decode_utf8_encode_utf8(bytes);
    }
}

}
