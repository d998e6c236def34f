//! File system paths of a Unix host: any bytes, with `/` between components.

use vstd::prelude::*;
use vstd::utf8;

use crate::chars;

verus! {

/// A path as the bytes that the host knows it by.
#[derive(Debug, Clone, PartialEq, Eq)]
pub struct FsPath {
    pub bytes: Vec<u8>,
}

impl View for FsPath {
    type V = Seq<u8>;

    open spec fn view(&self) -> Seq<u8> {
        self.bytes@
    }
}

/// What stands at a path, symbolic links not followed.
#[derive(Debug, Clone, PartialEq, Eq)]
pub enum PathEntry {
    Missing,
    RegularFile,
    Directory,
    Symlink,
    Other,
    /// The path could not be looked at, for this reason.
    Unreadable(String),
}

/// The byte `/`.
pub const SEPARATOR: u8 = 47;

/// The byte `.`.
pub const DOT: u8 = 46;

/// The components of `path` by name. Repeated separators, a separator at the
/// end and the components `.` name nothing.
pub open spec fn components(path: Seq<u8>) -> Seq<Seq<u8>>
    decreases path.len(),
{
    let n = chars::prefix_len(path, chars::other_than(SEPARATOR));
    let head = path.take(n);
    let rest = if n < path.len() {
        proof {
            chars::lemma_prefix_len(path, chars::other_than(SEPARATOR));
        }
        components(path.skip(n + 1))
    } else {
        Seq::empty()
    };
    if head.len() == 0 || head == seq![DOT] {
        rest
    } else {
        seq![head] + rest
    }
}

pub open spec fn is_absolute(path: Seq<u8>) -> bool {
    path.len() > 0 && path[0] == SEPARATOR
}

/// The last component of `path`, unless that is `..`.
pub open spec fn file_name(path: Seq<u8>) -> Option<Seq<u8>> {
    let names = components(path);
    if names.len() > 0 && names.last() != seq![DOT, DOT] {
        Some(names.last())
    } else {
        None
    }
}

/// Both paths are absolute, and `path` names something directly under `dir`.
pub open spec fn stands_in(path: Seq<u8>, dir: Seq<u8>) -> bool {
    &&& is_absolute(path)
    &&& is_absolute(dir)
    &&& components(path).len() > 0
    &&& components(path).drop_last() == components(dir)
}

/// `path` followed by the component or components `tail`; `tail` alone where
/// that is absolute.
pub open spec fn joined_path(path: Seq<u8>, tail: Seq<u8>) -> Seq<u8> {
    if is_absolute(tail) {
        tail
    } else if path.len() == 0 || path.last() == SEPARATOR {
        path + tail
    } else {
        path.push(SEPARATOR) + tail
    }
}

/// The text of bytes that are valid UTF-8.
pub open spec fn utf8_text(bytes: Seq<u8>) -> Option<Seq<char>> {
    if utf8::valid_utf8(bytes) {
        Some(utf8::decode_utf8(bytes))
    } else {
        None
    }
}

/// The text that `String::from_utf8_lossy` makes of `bytes`.
pub uninterp spec fn lossy_utf8(bytes: Seq<u8>) -> Seq<char>;

/// What a message shows of `path`: its text, with replacement characters for
/// what is not valid UTF-8.
pub open spec fn shown(path: Seq<u8>) -> Seq<char> {
    match utf8_text(path) {
        Some(text) => text,
        None => lossy_utf8(path),
    }
}

/// `core::str::from_utf8` gives the text of the bytes exactly where they are
/// valid UTF-8.
#[verifier::external_body]
fn text_from_utf8(bytes: &[u8]) -> (result: Option<&str>)
    ensures
        result is Some <==> utf8::valid_utf8(bytes@),
        result matches Some(text) ==> text@ == utf8::decode_utf8(bytes@),
{
    core::str::from_utf8(bytes).ok()
}

/// `String::from_utf8_lossy` keeps valid UTF-8 as it is. Which replacement
/// characters it puts in place of other bytes is not stated.
#[verifier::external_body]
fn text_from_utf8_lossy(bytes: &[u8]) -> (result: String)
    ensures
        result@ == lossy_utf8(bytes@),
        utf8::valid_utf8(bytes@) ==> result@ == utf8::decode_utf8(bytes@),
{
    String::from_utf8_lossy(bytes).into_owned()
}

fn same_bytes(a: &Vec<u8>, b: &Vec<u8>) -> (result: bool)
    ensures
        result == (a@ == b@),
{
    if a.len() != b.len() {
        return false;
    }
    let mut i: usize = 0;
    while i < a.len()
        invariant
            i <= a.len(),
            a.len() == b.len(),
            forall|j: int| 0 <= j < i ==> a@[j] == b@[j],
        decreases a.len() - i,
    {
        if a[i] != b[i] {
            return false;
        }
        i = i + 1;
    }
    assert(a@ =~= b@);
    true
}

impl FsPath {
    /// The path that `text` writes.
    pub fn new(text: &str) -> (result: FsPath)
        ensures
            result@ == utf8::encode_utf8(text@),
    {
        FsPath { bytes: text.as_bytes_vec() }
    }

    /// The path of these bytes.
    pub fn from_bytes(bytes: Vec<u8>) -> (result: FsPath)
        ensures
            result@ == bytes@,
    {
        FsPath { bytes }
    }

    pub fn duplicate(&self) -> (result: FsPath)
        ensures
            result@ == self@,
    {
        let mut bytes: Vec<u8> = Vec::new();
        let mut i: usize = 0;
        while i < self.bytes.len()
            invariant
                i <= self.bytes.len(),
                bytes@ == self@.take(i as int),
            decreases self.bytes.len() - i,
        {
            bytes.push(self.bytes[i]);
            i = i + 1;
            assert(bytes@ =~= self@.take(i as int));
        }
        assert(bytes@ =~= self@);
        FsPath { bytes }
    }

    pub fn is_absolute(&self) -> (result: bool)
        ensures
            result == is_absolute(self@),
    {
        self.bytes.len() > 0 && self.bytes[0] == SEPARATOR
    }

    /// The text of the path, where it is valid UTF-8.
    pub fn to_str(&self) -> (result: Option<&str>)
        ensures
            match result {
                Some(text) => utf8_text(self@) == Some(text@),
                None => utf8_text(self@) is None,
            },
    {
        text_from_utf8(self.bytes.as_slice())
    }

    /// The path as messages show it.
    pub fn display(&self) -> (result: String)
        ensures
            result@ == shown(self@),
    {
        text_from_utf8_lossy(self.bytes.as_slice())
    }

    /// The components of the path.
    pub fn components(&self) -> (result: Vec<FsPath>)
        ensures
            paths(result@) == components(self@),
    {
        let all = &self.bytes;
        let mut out: Vec<FsPath> = Vec::new();
        let mut from: usize = 0;
        let mut more: bool = true;
        assert(self@.skip(0) =~= self@);
        while more
            invariant
                from <= all.len(),
                all@ == self@,
                more ==> paths(out@) + components(self@.skip(from as int)) =~= components(self@),
                !more ==> paths(out@) =~= components(self@),
            decreases (if more {
                1 + all.len() - from
            } else {
                0
            }),
        {
            let ghost here = self@.skip(from as int);
            let ghost before = paths(out@);
            let mut end: usize = from;
            let mut head: Vec<u8> = Vec::new();
            while end < all.len() && all[end] != SEPARATOR
                invariant
                    from <= end <= all.len(),
                    all@ == self@,
                    forall|j: int| from <= j < end ==> all@[j] != SEPARATOR,
                    head@ == all@.subrange(from as int, end as int),
                decreases all.len() - end,
            {
                head.push(all[end]);
                end = end + 1;
                assert(head@ =~= all@.subrange(from as int, end as int));
            }
            proof {
                assert forall|j: int| 0 <= j < end - from implies chars::other_than(SEPARATOR)(
                    #[trigger] here[j],
                ) by {
                    assert(here[j] == all@[j + from]);
                }
                chars::lemma_prefix_len_is(here, chars::other_than(SEPARATOR), end - from);
                assert(here.take(end - from) =~= head@);
                if head@.len() == 1 && head@[0] == DOT {
                    assert(head@ =~= seq![DOT]);
                }
            }
            if !(head.len() == 0 || (head.len() == 1 && head[0] == DOT)) {
                let ghost name = head@;
                out.push(FsPath { bytes: head });
                assert(paths(out@) =~= before.push(name));
            }
            if end < all.len() {
                assert(here.skip(end - from + 1) =~= self@.skip(end + 1));
                from = end + 1;
            } else {
                from = end;
                more = false;
            }
        }
        out
    }

    /// The last component of the path, unless that is `..`.
    pub fn file_name(&self) -> (result: Option<FsPath>)
        ensures
            match result {
                Some(name) => file_name(self@) == Some(name@),
                None => file_name(self@) is None,
            },
    {
        let mut names = self.components();
        let ghost all = names@;
        assert(paths(all).len() == all.len());
        match names.pop() {
            Some(name) => {
                assert(paths(all).last() == name@);
                if name.bytes.len() == 2 && name.bytes[0] == DOT && name.bytes[1] == DOT {
                    assert(name@ =~= seq![DOT, DOT]);
                    None
                } else {
                    Some(name)
                }
            },
            None => None,
        }
    }

    pub fn stands_in(&self, dir: &FsPath) -> (result: bool)
        ensures
            result == stands_in(self@, dir@),
    {
        if !self.is_absolute() || !dir.is_absolute() {
            return false;
        }
        let names = self.components();
        let above = dir.components();
        assert(paths(names@).len() == names@.len());
        assert(paths(above@).len() == above@.len());
        if names.len() == 0 || names.len() - 1 != above.len() {
            return false;
        }
        let mut i: usize = 0;
        while i < above.len()
            invariant
                i <= above.len(),
                names.len() == above.len() + 1,
                paths(names@) == components(self@),
                paths(above@) == components(dir@),
                forall|j: int| 0 <= j < i ==> names@[j]@ == above@[j]@,
            decreases above.len() - i,
        {
            if !same_bytes(&names[i].bytes, &above[i].bytes) {
                assert(components(self@).drop_last()[i as int] == names@[i as int]@);
                assert(components(dir@)[i as int] == above@[i as int]@);
                return false;
            }
            i = i + 1;
        }
        assert(components(self@).drop_last() =~= components(dir@));
        true
    }

    pub fn join(&self, tail: &str) -> (result: FsPath)
        ensures
            result@ == joined_path(self@, utf8::encode_utf8(tail@)),
    {
        let end = FsPath::new(tail);
        if end.is_absolute() {
            return end;
        }
        let mut out = self.duplicate();
        if self.bytes.len() > 0 && self.bytes[self.bytes.len() - 1] != SEPARATOR {
            out.bytes.push(SEPARATOR);
        }
        let mut rest = end.bytes;
        out.bytes.append(&mut rest);
        out
    }
}

/// The bytes of each of several paths.
pub open spec fn paths(list: Seq<FsPath>) -> Seq<Seq<u8>> {
    Seq::new(list.len(), |i: int| list[i]@)
}

/// A path that starts with `n` bytes before its first separator starts with
/// the component of those bytes.
pub proof fn lemma_first_component(path: Seq<u8>, n: int)
    requires
        0 <= n <= path.len(),
        forall|j: int| 0 <= j < n ==> path[j] != SEPARATOR,
        n < path.len() ==> path[n] == SEPARATOR,
    ensures
        ({
            let rest = if n < path.len() {
                components(path.skip(n + 1))
            } else {
                Seq::empty()
            };
            components(path) == if n == 0 || path.take(n) == seq![DOT] {
                rest
            } else {
                seq![path.take(n)] + rest
            }
        }),
{
    chars::lemma_prefix_len_is(path, chars::other_than(SEPARATOR), n);
}

/// A path made from a text has that text.
pub proof fn law_new_path_text(text: Seq<char>)
    ensures
        utf8_text(utf8::encode_utf8(text)) == Some(text),
        shown(utf8::encode_utf8(text)) == text,
{
    utf8::encode_utf8_valid_utf8(text);
    utf8::encode_utf8_decode_utf8(text);
}

}
