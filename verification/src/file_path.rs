//! Paths, as the platforms spell and join them.
//!
//! A path is kept as the bytes that the platform gives for it, so that one that
//! is no text stays what it is.

use vstd::prelude::*;
use vstd::utf8::{decode_utf8, encode_utf8, valid_utf8};

verus! {

/// How paths are spelled.
#[derive(Clone, Copy, Debug, PartialEq, Eq, Structural)]
pub enum PathStyle {
    /// Names stand between slashes.
    Unix,
    /// Names stand between backslashes or slashes, and a path may start with a
    /// prefix: a drive, or a share.
    Windows,
}

/// A path.
#[derive(Debug, PartialEq, Eq)]
pub struct FilePath {
    pub raw: Vec<u8>,
    pub style: PathStyle,
}

/// A path as plain values.
pub ghost struct PathView {
    pub raw: Seq<u8>,
    pub style: PathStyle,
}

// ---- separators and prefixes -----------------------------------------------------------

/// Whether a byte stands between names.
pub open spec fn is_separator(style: PathStyle, byte: u8) -> bool {
    byte == 47 || (style == PathStyle::Windows && byte == 92)
}

/// The separator that is written.
pub open spec fn separator(style: PathStyle) -> u8 {
    match style {
        PathStyle::Unix => 47,
        PathStyle::Windows => 92,
    }
}

/// Whether a path starts with a drive: a letter and a colon.
pub open spec fn has_drive(style: PathStyle, raw: Seq<u8>) -> bool {
    &&& style == PathStyle::Windows
    &&& raw.len() >= 2
    &&& (65 <= raw[0] <= 90 || 97 <= raw[0] <= 122)
    &&& raw[1] == 58
}

/// Whether a path starts with `\\?\`, which keeps it from being interpreted.
pub open spec fn is_verbatim(style: PathStyle, raw: Seq<u8>) -> bool {
    style == PathStyle::Windows && raw.len() >= 4 && raw.take(4) == seq![92u8, 92, 63, 92]
}

/// Whether a verbatim path leads to a drive.
pub open spec fn has_verbatim_drive(style: PathStyle, raw: Seq<u8>) -> bool {
    &&& is_verbatim(style, raw)
    &&& has_drive(style, raw.skip(4))
    &&& raw.len() == 6 || is_separator(style, raw[6])
}

/// Where the name that begins at a position ends. A slash ends none in a
/// verbatim path.
pub open spec fn name_end(style: PathStyle, raw: Seq<u8>, from: int) -> int
    decreases raw.len() - from,
{
    if from < 0 || from >= raw.len() || Manner::of(style, raw).separates(raw[from]) {
        from
    } else {
        name_end(style, raw, from + 1)
    }
}

/// The end of a prefix of two names, or of four for a verbatim share. Where a
/// name is missing there is none, unless the path is verbatim.
pub open spec fn share_end(style: PathStyle, raw: Seq<u8>) -> int {
    let first = name_end(style, raw, 2);
    let second = name_end(style, raw, first + 1);
    if has_verbatim_drive(style, raw) {
        6
    } else if first == 2 || (second <= first + 1 && !is_verbatim(style, raw)) {
        0
    } else if is_verbatim(style, raw) && raw.subrange(first + 1, second) == seq![85u8, 78, 67] {
        let third = name_end(style, raw, second + 1);
        let fourth = name_end(style, raw, third + 1);
        if fourth <= raw.len() {
            fourth
        } else {
            raw.len() as int
        }
    } else {
        second
    }
}

/// Where the prefix of a path ends; 0 where it has none.
pub open spec fn prefix_end(style: PathStyle, raw: Seq<u8>) -> int {
    if style == PathStyle::Unix {
        0
    } else if has_drive(style, raw) {
        2
    } else if raw.len() >= 2 && is_separator(style, raw[0]) && is_separator(style, raw[1]) {
        share_end(style, raw)
    } else {
        0
    }
}

/// Whether a path starts at a root. A prefix that is neither a drive nor
/// verbatim implies one.
pub open spec fn rooted(style: PathStyle, raw: Seq<u8>) -> bool {
    let at = prefix_end(style, raw);
    (at > 0 && !has_drive(style, raw) && !is_verbatim(style, raw)) || (at < raw.len()
        && is_separator(style, raw[at]))
}

fn separates(style: PathStyle, byte: u8) -> (r: bool)
    ensures
        r == is_separator(style, byte),
{
    byte == 47 || (style == PathStyle::Windows && byte == 92)
}

fn ends_name(style: PathStyle, verbatim: bool, byte: u8) -> (r: bool)
    ensures
        r == (Manner { style, verbatim }).separates(byte),
{
    if verbatim {
        byte == 92
    } else {
        separates(style, byte)
    }
}

fn find_name_end(style: PathStyle, verbatim: bool, raw: &Vec<u8>, from: usize) -> (end: usize)
    requires
        from <= raw@.len() + 1,
        verbatim == is_verbatim(style, raw@),
    ensures
        end == name_end(style, raw@, from as int),
        from <= end <= raw@.len() + 1,
        end > from ==> end <= raw@.len(),
{
    let mut at: usize = from;
    while at < raw.len() && !ends_name(style, verbatim, raw[at])
        invariant
            verbatim == is_verbatim(style, raw@),
            from <= at <= raw@.len() + 1,
            at > from ==> at <= raw@.len(),
            name_end(style, raw@, from as int) == name_end(style, raw@, at as int),
        decreases raw@.len() + 1 - at,
    {
        at += 1;
    }
    at
}

fn drive_first(style: PathStyle, raw: &Vec<u8>) -> (r: bool)
    ensures
        r == has_drive(style, raw@),
{
    style == PathStyle::Windows && raw.len() >= 2 && ((65 <= raw[0] && raw[0] <= 90) || (97
        <= raw[0] && raw[0] <= 122)) && raw[1] == 58
}

fn verbatim_first(style: PathStyle, raw: &Vec<u8>) -> (r: bool)
    ensures
        r == is_verbatim(style, raw@),
{
    if style == PathStyle::Windows && raw.len() >= 4 {
        let r = raw[0] == 92 && raw[1] == 92 && raw[2] == 63 && raw[3] == 92;
        proof {
            let head = raw@.take(4);
            if r {
                assert(head =~= seq![92u8, 92, 63, 92]);
            } else if head == seq![92u8, 92, 63, 92] {
                assert(head[0] == 92 && head[1] == 92 && head[2] == 63 && head[3] == 92);
            }
        }
        r
    } else {
        false
    }
}

fn verbatim_drive_first(style: PathStyle, raw: &Vec<u8>) -> (r: bool)
    ensures
        r == has_verbatim_drive(style, raw@),
{
    verbatim_first(style, raw) && raw.len() >= 6 && ((65 <= raw[4] && raw[4] <= 90) || (97 <= raw[4]
        && raw[4] <= 122)) && raw[5] == 58 && (raw.len() == 6 || separates(style, raw[6]))
}

fn find_share_end(style: PathStyle, raw: &Vec<u8>) -> (end: usize)
    requires
        raw@.len() >= 2,
    ensures
        end == share_end(style, raw@),
        end <= raw@.len(),
{
    let n: usize = raw.len();
    let verbatim = verbatim_first(style, raw);
    if verbatim_drive_first(style, raw) {
        return 6;
    }
    let first: usize = find_name_end(style, verbatim, raw, 2);
    proof {
        if is_verbatim(style, raw@) {
            let start = raw@.take(4);
            assert(start[2] == 63 && start[3] == 92);
            assert(raw@[2] == 63 && raw@[3] == 92);
            reveal_with_fuel(name_end, 3);
            assert(first == 3);
        }
    }
    if first == 2 || first >= n {
        return 0;
    }
    let second: usize = find_name_end(style, verbatim, raw, first + 1);
    if second <= first + 1 && !verbatim {
        return 0;
    }
    let unc = verbatim && second - first == 4 && raw[first + 1] == 85
        && raw[first + 2] == 78 && raw[first + 3] == 67;
    proof {
        let name = raw@.subrange(first + 1, second as int);
        if unc {
            assert(name =~= seq![85u8, 78, 67]);
        } else if is_verbatim(style, raw@) && name == seq![85u8, 78, 67] {
            assert(name.len() == 3);
            assert(name[0] == 85 && name[1] == 78 && name[2] == 67);
        }
    }
    if !unc {
        return second;
    }
    if second >= n {
        return n;
    }
    let third: usize = find_name_end(style, verbatim, raw, second + 1);
    if third >= n {
        return n;
    }
    let fourth: usize = find_name_end(style, verbatim, raw, third + 1);
    if fourth <= n {
        fourth
    } else {
        n
    }
}

fn find_prefix_end(style: PathStyle, raw: &Vec<u8>) -> (end: usize)
    ensures
        end == prefix_end(style, raw@),
        end <= raw@.len(),
{
    if style == PathStyle::Unix {
        0
    } else if drive_first(style, raw) {
        2
    } else if raw.len() >= 2 && separates(style, raw[0]) && separates(style, raw[1]) {
        find_share_end(style, raw)
    } else {
        0
    }
}

fn starts_at_root(style: PathStyle, raw: &Vec<u8>) -> (r: bool)
    ensures
        r == rooted(style, raw@),
{
    let at: usize = find_prefix_end(style, raw);
    (at > 0 && !drive_first(style, raw) && !verbatim_first(style, raw)) || (at < raw.len()
        && separates(style, raw[at]))
}

// ---- names and places --------------------------------------------------------------------

/// The names of a path, and the one that is still being read.
pub ghost struct Reading {
    pub names: Seq<Seq<u8>>,
    pub open: Seq<u8>,
}

/// How the names behind a prefix are told apart. A verbatim path takes
/// backslashes alone for separators, and a dot for a name.
pub ghost struct Manner {
    pub style: PathStyle,
    pub verbatim: bool,
}

impl Manner {
    pub open spec fn of(style: PathStyle, raw: Seq<u8>) -> Manner {
        Manner { style, verbatim: is_verbatim(style, raw) }
    }

    pub open spec fn separates(self, byte: u8) -> bool {
        if self.verbatim {
            byte == 92
        } else {
            is_separator(self.style, byte)
        }
    }

    /// Names with one more behind them. An empty one names nothing, and neither
    /// does a dot.
    pub open spec fn with_name(self, names: Seq<Seq<u8>>, name: Seq<u8>) -> Seq<Seq<u8>> {
        if name.len() == 0 || (!self.verbatim && name == seq![46u8]) {
            names
        } else {
            names.push(name)
        }
    }

    /// Names read from the start.
    pub open spec fn reading(self, text: Seq<u8>) -> Reading
        decreases text.len(),
    {
        if text.len() == 0 {
            Reading { names: Seq::empty(), open: Seq::empty() }
        } else {
            let before = self.reading(text.drop_last());
            if self.separates(text.last()) {
                Reading { names: self.with_name(before.names, before.open), open: Seq::empty() }
            } else {
                Reading { open: before.open.push(text.last()), ..before }
            }
        }
    }

    pub open spec fn names_in(self, text: Seq<u8>) -> Seq<Seq<u8>> {
        self.with_name(self.reading(text).names, self.reading(text).open)
    }
}

/// The names of a path, one below the other, without its prefix.
pub open spec fn names_of(style: PathStyle, raw: Seq<u8>) -> Seq<Seq<u8>> {
    Manner::of(style, raw).names_in(raw.skip(prefix_end(style, raw)))
}

/// The place that a path leads to. Doubled separators, one at the end, and dots
/// between them make no difference; a dot at the start does.
pub ghost struct Place {
    pub prefix: Seq<u8>,
    pub rooted: bool,
    pub dotted: bool,
    pub names: Seq<Seq<u8>>,
}

/// A byte of a prefix, as prefixes are compared: a drive whatever its case, and
/// a share whatever its separators.
pub open spec fn prefix_byte(style: PathStyle, raw: Seq<u8>, i: int) -> u8 {
    if (has_drive(style, raw) || (has_verbatim_drive(style, raw) && i == 4)) && 97 <= raw[i]
        <= 122 {
        (raw[i] - 32) as u8
    } else if !is_verbatim(style, raw) && raw[i] == 47 {
        92
    } else {
        raw[i]
    }
}

/// Whether what stands behind the prefix of a path starts with a dot of its own.
pub open spec fn dotted(style: PathStyle, raw: Seq<u8>) -> bool {
    let at = prefix_end(style, raw);
    &&& !rooted(style, raw)
    &&& !is_verbatim(style, raw)
    &&& at < raw.len()
    &&& raw[at] == 46
    &&& at + 1 == raw.len() || is_separator(style, raw[at + 1])
}

pub open spec fn place(path: PathView) -> Place {
    Place {
        prefix: Seq::new(
            prefix_end(path.style, path.raw) as nat,
            |i: int| prefix_byte(path.style, path.raw, i),
        ),
        rooted: rooted(path.style, path.raw),
        dotted: dotted(path.style, path.raw),
        names: names_of(path.style, path.raw),
    }
}

pub open spec fn names_model(names: Seq<Vec<u8>>) -> Seq<Seq<u8>> {
    Seq::new(names.len(), |i: int| names[i]@)
}

fn push_name(names: &mut Vec<Vec<u8>>, name: Vec<u8>, verbatim: bool, manner: Ghost<Manner>)
    requires
        manner@.verbatim == verbatim,
    ensures
        names_model(final(names)@) == manner@.with_name(names_model(old(names)@), name@),
{
    if name.len() == 0 || (!verbatim && name.len() == 1 && name[0] == 46) {
        assert(name@.len() == 1 ==> name@ =~= seq![name@[0]]);
        return;
    }
    names.push(name);
    assert(names_model(names@) =~= names_model(old(names)@).push(name@));
}

fn split_names(style: PathStyle, verbatim: bool, raw: &Vec<u8>, from: usize) -> (r: Vec<Vec<u8>>)
    requires
        from <= raw@.len(),
    ensures
        names_model(r@) == (Manner { style, verbatim }).names_in(raw@.skip(from as int)),
{
    let ghost manner = Manner { style, verbatim };
    let ghost text = raw@.skip(from as int);
    let mut names: Vec<Vec<u8>> = Vec::new();
    let mut open: Vec<u8> = Vec::new();
    let mut i: usize = from;
    proof {
        assert(text.take(0) =~= Seq::<u8>::empty());
        assert(names_model(names@) =~= Seq::<Seq<u8>>::empty());
        assert(open@ =~= Seq::<u8>::empty());
    }
    while i < raw.len()
        invariant
            from <= i <= raw@.len(),
            text == raw@.skip(from as int),
            manner == (Manner { style, verbatim }),
            names_model(names@) == manner.reading(text.take(i - from)).names,
            open@ == manner.reading(text.take(i - from)).open,
        decreases raw.len() - i,
    {
        let byte: u8 = raw[i];
        proof {
            assert(text.take(i + 1 - from).drop_last() =~= text.take(i - from));
            assert(text.take(i + 1 - from).last() == byte);
        }
        if (verbatim && byte == 92) || (!verbatim && separates(style, byte)) {
            push_name(&mut names, open, verbatim, Ghost(manner));
            open = Vec::new();
            assert(open@ =~= Seq::<u8>::empty());
        } else {
            open.push(byte);
        }
        i += 1;
    }
    assert(text.take(i - from) =~= text);
    push_name(&mut names, open, verbatim, Ghost(manner));
    names
}

fn same_bytes(a: &Vec<u8>, b: &Vec<u8>) -> (r: bool)
    ensures
        r == (a@ == b@),
{
    if a.len() != b.len() {
        return false;
    }
    let mut i: usize = 0;
    while i < a.len()
        invariant
            i <= a@.len(),
            a@.len() == b@.len(),
            forall|k: int| 0 <= k < i ==> #[trigger] a@[k] == b@[k],
        decreases a.len() - i,
    {
        if a[i] != b[i] {
            return false;
        }
        i += 1;
    }
    assert(a@ =~= b@);
    true
}

fn same_names(a: &Vec<Vec<u8>>, b: &Vec<Vec<u8>>) -> (r: bool)
    ensures
        r == (names_model(a@) == names_model(b@)),
{
    if a.len() != b.len() {
        assert(names_model(a@).len() != names_model(b@).len());
        return false;
    }
    let mut i: usize = 0;
    while i < a.len()
        invariant
            i <= a@.len(),
            a@.len() == b@.len(),
            forall|k: int| 0 <= k < i ==> #[trigger] a@[k]@ == b@[k]@,
        decreases a.len() - i,
    {
        if !same_bytes(&a[i], &b[i]) {
            assert(names_model(a@)[i as int] != names_model(b@)[i as int]);
            return false;
        }
        i += 1;
    }
    assert(names_model(a@) =~= names_model(b@));
    true
}

fn compared_prefix(style: PathStyle, raw: &Vec<u8>, end: usize) -> (r: Vec<u8>)
    requires
        end == prefix_end(style, raw@),
        end <= raw@.len(),
    ensures
        r@ == Seq::new(end as nat, |i: int| prefix_byte(style, raw@, i)),
{
    let drive = drive_first(style, raw);
    let verbatim = verbatim_first(style, raw);
    let far_drive = verbatim_drive_first(style, raw);
    let mut r: Vec<u8> = Vec::new();
    let mut i: usize = 0;
    while i < end
        invariant
            i <= end <= raw@.len(),
            drive == has_drive(style, raw@),
            verbatim == is_verbatim(style, raw@),
            far_drive == has_verbatim_drive(style, raw@),
            r@.len() == i,
            forall|k: int| 0 <= k < i ==> #[trigger] r@[k] == prefix_byte(style, raw@, k),
        decreases end - i,
    {
        let byte: u8 = raw[i];
        if (drive || (far_drive && i == 4)) && 97 <= byte && byte <= 122 {
            r.push(byte - 32);
        } else if !verbatim && byte == 47 {
            r.push(92);
        } else {
            r.push(byte);
        }
        i += 1;
    }
    assert(r@ =~= Seq::new(end as nat, |i: int| prefix_byte(style, raw@, i)));
    r
}

// ---- joining -----------------------------------------------------------------------------

/// Names with more behind them, of which a dot names nothing, and a double dot
/// takes away the name above it.
pub open spec fn resolved(names: Seq<Seq<u8>>, more: Seq<Seq<u8>>) -> Seq<Seq<u8>>
    decreases more.len(),
{
    if more.len() == 0 {
        names
    } else {
        let before = resolved(names, more.drop_last());
        let name = more.last();
        if name == seq![46u8] {
            before
        } else if name == seq![46u8, 46] {
            if before.len() > 0 && before.last() != seq![46u8] && before.last() != seq![46u8, 46] {
                before.drop_last()
            } else {
                before
            }
        } else {
            before.push(name)
        }
    }
}

/// Names behind a prefix, each behind a backslash.
pub open spec fn behind(prefix: Seq<u8>, names: Seq<Seq<u8>>) -> Seq<u8>
    decreases names.len(),
{
    if names.len() == 0 {
        prefix
    } else {
        behind(prefix, names.drop_last()).push(92) + names.last()
    }
}

/// A verbatim path with a path behind it, which is resolved on the way.
pub open spec fn verbatim_child(raw: Seq<u8>, added: Seq<u8>) -> Seq<u8> {
    let style = PathStyle::Windows;
    let at = prefix_end(style, raw);
    let start = if rooted(style, added) {
        Seq::empty()
    } else {
        names_of(style, raw)
    };
    let names = resolved(start, names_of(style, added));
    let root = rooted(style, added) || (at < raw.len() && raw[at] == 92);
    if names.len() == 0 && root {
        raw.take(at).push(92)
    } else {
        behind(raw.take(at), names)
    }
}

/// A path with another behind it. One that has a prefix takes its place; one
/// that starts at a root keeps nothing of it but the prefix; any other stands
/// behind a separator, unless there is one, or the path is empty or a drive.
pub open spec fn raw_child(style: PathStyle, raw: Seq<u8>, added: Seq<u8>) -> Seq<u8> {
    if prefix_end(style, added) > 0 {
        added
    } else if is_verbatim(style, raw) && added.len() > 0 {
        verbatim_child(raw, added)
    } else if rooted(style, added) {
        raw.take(prefix_end(style, raw)) + added
    } else if raw.len() == 0 || is_separator(style, raw.last()) || (has_drive(style, raw)
        && raw.len() == 2) {
        raw + added
    } else {
        raw.push(separator(style)) + added
    }
}

/// A path with a name behind it.
pub open spec fn child(path: PathView, name: Seq<char>) -> PathView {
    PathView { raw: raw_child(path.style, path.raw, encode_utf8(name)), ..path }
}

fn append(raw: &mut Vec<u8>, more: &[u8])
    ensures
        final(raw)@ == old(raw)@ + more@,
{
    let ghost start = raw@;
    let mut i: usize = 0;
    assert(start + more@.take(0) =~= start);
    while i < more.len()
        invariant
            i <= more@.len(),
            raw@ == start + more@.take(i as int),
        decreases more.len() - i,
    {
        raw.push(more[i]);
        assert(more@.take(i + 1) =~= more@.take(i as int).push(more@[i as int]));
        assert(raw@ =~= start + more@.take(i + 1));
        i += 1;
    }
    assert(more@.take(i as int) =~= more@);
}

fn head(raw: &Vec<u8>, end: usize) -> (r: Vec<u8>)
    requires
        end <= raw@.len(),
    ensures
        r@ == raw@.take(end as int),
{
    let mut r: Vec<u8> = Vec::new();
    let mut i: usize = 0;
    while i < end
        invariant
            i <= end <= raw@.len(),
            r@ == raw@.take(i as int),
        decreases end - i,
    {
        r.push(raw[i]);
        assert(raw@.take(i + 1) =~= raw@.take(i as int).push(raw@[i as int]));
        i += 1;
    }
    r
}

fn is_dots(name: &Vec<u8>) -> (r: bool)
    ensures
        r == (name@ == seq![46u8] || name@ == seq![46u8, 46]),
{
    let r = (name.len() == 1 && name[0] == 46) || (name.len() == 2 && name[0] == 46 && name[1]
        == 46);
    proof {
        assert(name@.len() == 1 ==> name@ =~= seq![name@[0]]);
        assert(name@.len() == 2 ==> name@ =~= seq![name@[0], name@[1]]);
        if name@ == seq![46u8] {
            assert(name@.len() == 1 && name@[0] == 46);
        }
        if name@ == seq![46u8, 46] {
            assert(name@.len() == 2 && name@[0] == 46 && name@[1] == 46);
        }
    }
    r
}

fn resolve(names: Vec<Vec<u8>>, more: Vec<Vec<u8>>) -> (r: Vec<Vec<u8>>)
    ensures
        names_model(r@) == resolved(names_model(names@), names_model(more@)),
{
    let ghost all = names_model(more@);
    let ghost start = names_model(names@);
    let mut r = names;
    let mut rest = more;
    let n: usize = rest.len();
    let mut i: usize = 0;
    proof {
        assert(all.take(0) =~= Seq::<Seq<u8>>::empty());
        assert(rest@.skip(0) =~= rest@);
    }
    while i < n
        invariant
            i <= n,
            n == all.len(),
            rest@.len() == n - i,
            names_model(rest@) == all.skip(i as int),
            names_model(r@) == resolved(start, all.take(i as int)),
        decreases n - i,
    {
        let ghost before = rest@;
        let name = rest.remove(0);
        proof {
            assert(names_model(before)[0] == name@);
            assert(name@ == all[i as int]);
            assert(all.take(i + 1).drop_last() =~= all.take(i as int));
            assert(all.take(i + 1).last() == name@);
            assert(names_model(rest@) =~= all.skip(i + 1)) by {
                assert forall|k: int| 0 <= k < rest@.len() implies names_model(rest@)[k]
                    == all.skip(i + 1)[k] by {
                    assert(rest@[k] == before[k + 1]);
                    assert(names_model(before)[k + 1] == all.skip(i as int)[k + 1]);
                }
            }
            assert(name@.len() == 1 ==> name@ =~= seq![name@[0]]);
            assert(name@.len() == 2 ==> name@ =~= seq![name@[0], name@[1]]);
        }
        let ghost held = r@;
        if name.len() == 1 && name[0] == 46 {
            assert(name@ == seq![46u8]);
        } else if name.len() == 2 && name[0] == 46 && name[1] == 46 {
            assert(name@ == seq![46u8, 46]);
            assert(r@.len() > 0 ==> names_model(r@).last() == r@[r@.len() - 1]@);
            if r.len() > 0 && !is_dots(&r[r.len() - 1]) {
                r.pop();
                assert(names_model(r@) =~= names_model(held).drop_last());
            }
        } else {
            proof {
                if name@ == seq![46u8] {
                    assert(name@.len() == 1 && name@[0] == 46);
                }
                if name@ == seq![46u8, 46] {
                    assert(name@.len() == 2 && name@[0] == 46 && name@[1] == 46);
                }
            }
            r.push(name);
            assert(names_model(r@) =~= names_model(held).push(name@));
        }
        i += 1;
    }
    assert(all.take(i as int) =~= all);
    r
}

fn put_behind(prefix: Vec<u8>, names: &Vec<Vec<u8>>) -> (r: Vec<u8>)
    ensures
        r@ == behind(prefix@, names_model(names@)),
{
    let ghost all = names_model(names@);
    let mut r = prefix;
    let mut i: usize = 0;
    assert(all.take(0) =~= Seq::<Seq<u8>>::empty());
    while i < names.len()
        invariant
            i <= names@.len(),
            all == names_model(names@),
            r@ == behind(prefix@, all.take(i as int)),
        decreases names.len() - i,
    {
        proof {
            assert(all.take(i + 1).drop_last() =~= all.take(i as int));
            assert(all.take(i + 1).last() == names@[i as int]@);
        }
        r.push(92);
        append(&mut r, names[i].as_slice());
        i += 1;
    }
    assert(all.take(i as int) =~= all);
    r
}

proof fn verbatim_has_prefix(raw: Seq<u8>)
    requires
        is_verbatim(PathStyle::Windows, raw),
    ensures
        prefix_end(PathStyle::Windows, raw) > 0,
{
    let style = PathStyle::Windows;
    let start = raw.take(4);
    assert(start[0] == 92 && start[1] == 92 && start[2] == 63 && start[3] == 92);
    assert(raw[0] == 92 && raw[1] == 92 && raw[2] == 63 && raw[3] == 92);
    reveal_with_fuel(name_end, 3);
    assert(name_end(style, raw, 2) == 3);
    name_end_is_behind(style, raw, 4);
    let second = name_end(style, raw, 4);
    name_end_is_behind(style, raw, second + 1);
    let third = name_end(style, raw, second + 1);
    name_end_is_behind(style, raw, third + 1);
}

proof fn name_end_is_behind(style: PathStyle, raw: Seq<u8>, from: int)
    ensures
        name_end(style, raw, from) >= from,
    decreases raw.len() - from,
{
    if 0 <= from < raw.len() && !Manner::of(style, raw).separates(raw[from]) {
        name_end_is_behind(style, raw, from + 1);
    }
}

fn join_verbatim(raw: &Vec<u8>, added: &Vec<u8>) -> (r: Vec<u8>)
    requires
        is_verbatim(PathStyle::Windows, raw@),
        prefix_end(PathStyle::Windows, added@) == 0,
    ensures
        r@ == verbatim_child(raw@, added@),
{
    let style = PathStyle::Windows;
    let at: usize = find_prefix_end(style, raw);
    let own_root = at < raw.len() && raw[at] == 92;
    let root = starts_at_root(style, added);
    let start: Vec<Vec<u8>> = if root {
        Vec::new()
    } else {
        split_names(style, true, raw, at)
    };
    proof {
        if root {
            assert(names_model(start@) =~= Seq::<Seq<u8>>::empty());
        }
        assert(!is_verbatim(style, added@)) by {
            if is_verbatim(style, added@) {
                verbatim_has_prefix(added@);
            }
        }
        assert(added@.skip(0) =~= added@);
    }
    let names = resolve(start, split_names(style, false, added, 0));
    let mut prefix = head(raw, at);
    if names.len() == 0 && (root || own_root) {
        prefix.push(92);
        assert(names_model(names@).len() == 0);
        return prefix;
    }
    put_behind(prefix, &names)
}

fn bytes_of(text: &str) -> (r: Vec<u8>)
    ensures
        r@ == encode_utf8(text@),
{
    let mut r: Vec<u8> = Vec::new();
    append(&mut r, text.as_bytes());
    assert(r@ =~= encode_utf8(text@));
    r
}

/// Bytes as text, with what is no text in them replaced.
pub uninterp spec fn lossy_text(bytes: Seq<u8>) -> Seq<char>;

/// Calls `String::from_utf8_lossy`. The claim is that the text is a function of
/// the bytes, which `lossy_text` names, and that bytes that are a text are
/// given as it.
#[verifier::external_body]
fn lossy(bytes: &[u8]) -> (text: String)
    ensures
        text@ == lossy_text(bytes@),
        valid_utf8(bytes@) ==> text@ == decode_utf8(bytes@),
{
    String::from_utf8_lossy(bytes).into_owned()
}

impl FilePath {
    pub open spec fn view(&self) -> PathView {
        PathView { raw: self.raw@, style: self.style }
    }

    /// The path that a text spells.
    pub fn base(text: &str, style: PathStyle) -> (r: FilePath)
        ensures
            r@ == (PathView { raw: encode_utf8(text@), style }),
    {
        FilePath { raw: bytes_of(text), style }
    }

    /// The path with another behind it.
    pub fn join(&self, name: &str) -> (r: FilePath)
        ensures
            r@ == child(self@, name@),
    {
        let style = self.style;
        let added = bytes_of(name);
        let raw = if find_prefix_end(style, &added) > 0 {
            added
        } else if verbatim_first(style, &self.raw) && added.len() > 0 {
            join_verbatim(&self.raw, &added)
        } else if starts_at_root(style, &added) {
            let mut raw = head(&self.raw, find_prefix_end(style, &self.raw));
            append(&mut raw, added.as_slice());
            raw
        } else {
            let n: usize = self.raw.len();
            let mut raw = head(&self.raw, n);
            assert(self.raw@.take(n as int) =~= self.raw@);
            if !(n == 0 || separates(style, self.raw[n - 1]) || (drive_first(style, &self.raw) && n
                == 2)) {
                raw.push(
                    match style {
                        PathStyle::Unix => 47,
                        PathStyle::Windows => 92,
                    },
                );
            }
            append(&mut raw, added.as_slice());
            raw
        };
        FilePath { raw, style }
    }

    /// The path as a text.
    pub fn text(&self) -> (r: String)
        ensures
            r@ == lossy_text(self@.raw),
            valid_utf8(self@.raw) ==> r@ == decode_utf8(self@.raw),
    {
        lossy(self.raw.as_slice())
    }

    /// Whether two paths lead to the same place.
    pub fn same(&self, other: &FilePath) -> (r: bool)
        ensures
            r == (place(self@) == place(other@)),
    {
        let (at, end) = (
            find_prefix_end(self.style, &self.raw),
            find_prefix_end(other.style, &other.raw),
        );
        let prefixes = same_bytes(
            &compared_prefix(self.style, &self.raw, at),
            &compared_prefix(other.style, &other.raw, end),
        );
        let roots = starts_at_root(self.style, &self.raw) == starts_at_root(
            other.style,
            &other.raw,
        );
        let dots = self.has_dot(at) == other.has_dot(end);
        let mine = verbatim_first(self.style, &self.raw);
        let its = verbatim_first(other.style, &other.raw);
        let names = same_names(
            &split_names(self.style, mine, &self.raw, at),
            &split_names(other.style, its, &other.raw, end),
        );
        prefixes && roots && dots && names
    }

    fn has_dot(&self, at: usize) -> (r: bool)
        requires
            at == prefix_end(self.style, self.raw@),
        ensures
            r == dotted(self.style, self.raw@),
    {
        if starts_at_root(self.style, &self.raw) || verbatim_first(self.style, &self.raw) {
            return false;
        }
        let n: usize = self.raw.len();
        at < n && self.raw[at] == 46 && (n - at == 1 || separates(self.style, self.raw[at + 1]))
    }
}

impl Clone for FilePath {
    fn clone(&self) -> (r: Self)
        ensures
            r@ == self@,
    {
        let n: usize = self.raw.len();
        let raw = head(&self.raw, n);
        assert(self.raw@.take(n as int) =~= self.raw@);
        FilePath { raw, style: self.style }
    }
}

// ---- what lies below ---------------------------------------------------------------------

proof fn reading_on(manner: Manner, text: Seq<u8>, name: Seq<u8>)
    requires
        forall|i: int| 0 <= i < name.len() ==> !manner.separates(#[trigger] name[i]),
    ensures
        manner.reading(text + name) == (Reading {
            open: manner.reading(text).open + name,
            ..manner.reading(text)
        }),
    decreases name.len(),
{
    if name.len() == 0 {
        assert(text + name =~= text);
        assert(manner.reading(text).open + name =~= manner.reading(text).open);
    } else {
        reading_on(manner, text, name.drop_last());
        assert((text + name).drop_last() =~= text + name.drop_last());
        assert(manner.reading(text).open + name =~= (manner.reading(text).open
            + name.drop_last()).push(name.last()));
    }
}

proof fn a_separator_ends_a_name(manner: Manner, text: Seq<u8>, byte: u8)
    requires
        manner.separates(byte),
    ensures
        manner.names_in(text.push(byte)) == manner.names_in(text),
        manner.reading(text.push(byte)).open == Seq::<u8>::empty(),
{
    assert(text.push(byte).drop_last() =~= text);
}

proof fn a_name_is_added(manner: Manner, text: Seq<u8>, name: Seq<u8>)
    requires
        text.len() == 0 || manner.separates(text.last()),
        name.len() > 0,
        !manner.verbatim ==> name != seq![46u8],
        forall|i: int| 0 <= i < name.len() ==> !manner.separates(#[trigger] name[i]),
    ensures
        manner.names_in(text + name) == manner.names_in(text).push(name),
{
    reading_on(manner, text, name);
    assert(manner.reading(text).open =~= Seq::<u8>::empty());
    assert(manner.reading(text).open + name =~= name);
}

/// Whether names are ones that a path can have.
spec fn spelled(manner: Manner, names: Seq<Seq<u8>>) -> bool {
    forall|k: int, i: int|
        #![trigger names[k][i]]
        0 <= k < names.len() && 0 <= i < names[k].len() ==> !manner.separates(names[k][i])
}

spec fn filled(names: Seq<Seq<u8>>) -> bool {
    forall|k: int| 0 <= k < names.len() ==> (#[trigger] names[k]).len() > 0
}

proof fn names_are_spelled(manner: Manner, text: Seq<u8>)
    ensures
        spelled(manner, manner.reading(text).names),
        filled(manner.reading(text).names),
        forall|i: int|
            0 <= i < manner.reading(text).open.len() ==> !manner.separates(
                #[trigger] manner.reading(text).open[i],
            ),
        spelled(manner, manner.names_in(text)),
        filled(manner.names_in(text)),
    decreases text.len(),
{
    if text.len() > 0 {
        names_are_spelled(manner, text.drop_last());
    }
}

proof fn names_are_read_back(manner: Manner, prefix: Seq<u8>, names: Seq<Seq<u8>>)
    requires
        manner.verbatim,
        spelled(manner, names),
        filled(names),
    ensures
        behind(prefix, names).len() >= prefix.len(),
        behind(prefix, names).take(prefix.len() as int) == prefix,
        names.len() > 0 ==> behind(prefix, names).len() > prefix.len() && behind(
            prefix,
            names,
        )[prefix.len() as int] == 92,
        manner.names_in(behind(prefix, names).skip(prefix.len() as int)) == names,
    decreases names.len(),
{
    let at = prefix.len() as int;
    if names.len() == 0 {
        assert(prefix.skip(at) =~= Seq::<u8>::empty());
        assert(names =~= Seq::<Seq<u8>>::empty());
    } else {
        let (before, name) = (names.drop_last(), names.last());
        assert(spelled(manner, before)) by {
            assert forall|k: int, i: int|
                #![trigger before[k][i]]
                0 <= k < before.len() && 0 <= i < before[k].len() implies !manner.separates(
                before[k][i],
            ) by {
                assert(!manner.separates(names[k][i]));
            }
        }
        assert(filled(before)) by {
            assert forall|k: int| 0 <= k < before.len() implies (#[trigger] before[k]).len()
                > 0 by {
                assert(names[k].len() > 0);
            }
        }
        names_are_read_back(manner, prefix, before);
        let whole = behind(prefix, before);
        let text = whole.skip(at);
        assert(behind(prefix, names).skip(at) =~= text.push(92) + name);
        assert(behind(prefix, names).take(at) =~= whole.take(at));
        a_separator_ends_a_name(manner, text, 92);
        assert forall|i: int| 0 <= i < name.len() implies !manner.separates(#[trigger] name[i]) by {
            assert(!manner.separates(names[names.len() - 1][i]));
        }
        a_name_is_added(manner, text.push(92), name);
        assert(before.push(name) =~= names);
        if before.len() == 0 {
            assert(whole =~= prefix);
        }
        assert(behind(prefix, names)[at] == 92);
    }
}

proof fn a_name_ends_where_it_did(raw: Seq<u8>, joined: Seq<u8>, at: int, from: int)
    requires
        0 <= from <= name_end(PathStyle::Windows, raw, from) <= at,
        at <= raw.len(),
        at < joined.len(),
        joined.take(at) == raw.take(at),
        is_verbatim(PathStyle::Windows, joined) == is_verbatim(PathStyle::Windows, raw),
        name_end(PathStyle::Windows, raw, from) == at ==> Manner::of(
            PathStyle::Windows,
            raw,
        ).separates(joined[at]),
    ensures
        name_end(PathStyle::Windows, joined, from) == name_end(PathStyle::Windows, raw, from),
    decreases at - from,
{
    let style = PathStyle::Windows;
    if from < at {
        assert(joined[from] == joined.take(at)[from]);
        assert(raw[from] == raw.take(at)[from]);
        if !Manner::of(style, raw).separates(raw[from]) {
            name_end_is_behind(style, raw, from + 1);
            a_name_ends_where_it_did(raw, joined, at, from + 1);
        }
    }
}

proof fn a_prefix_is_kept(raw: Seq<u8>, joined: Seq<u8>, at: int)
    requires
        at == prefix_end(PathStyle::Windows, raw),
        0 < at <= raw.len(),
        at < joined.len(),
        !has_drive(PathStyle::Windows, raw),
        joined.take(at) == raw.take(at),
        is_separator(PathStyle::Windows, joined[at]),
        is_verbatim(PathStyle::Windows, raw) ==> at < raw.len() && raw[at] == 92 && joined[at]
            == 92,
    ensures
        prefix_end(PathStyle::Windows, joined) == at,
        !has_drive(PathStyle::Windows, joined),
        is_verbatim(PathStyle::Windows, joined) == is_verbatim(PathStyle::Windows, raw),
        has_verbatim_drive(PathStyle::Windows, joined) == has_verbatim_drive(
            PathStyle::Windows,
            raw,
        ),
{
    let style = PathStyle::Windows;
    let verbatim = is_verbatim(style, raw);
    let first = name_end(style, raw, 2);
    name_end_is_behind(style, raw, 2);
    let second = name_end(style, raw, first + 1);
    name_end_is_behind(style, raw, first + 1);
    let third = name_end(style, raw, second + 1);
    name_end_is_behind(style, raw, second + 1);
    let fourth = name_end(style, raw, third + 1);
    name_end_is_behind(style, raw, third + 1);
    if verbatim {
        let start = raw.take(4);
        assert(start[0] == 92 && start[1] == 92 && start[2] == 63 && start[3] == 92);
        assert(raw[0] == 92 && raw[1] == 92 && raw[2] == 63 && raw[3] == 92);
        reveal_with_fuel(name_end, 3);
        assert(first == 3);
    }
    assert(at >= 4);
    assert forall|i: int| 0 <= i < at implies #[trigger] joined[i] == raw[i] by {
        assert(joined[i] == joined.take(at)[i]);
        assert(raw[i] == raw.take(at)[i]);
    }
    assert(joined.take(4) =~= raw.take(4));
    assert(is_verbatim(style, joined) == verbatim);
    assert(has_verbatim_drive(style, joined) == has_verbatim_drive(style, raw)) by {
        if verbatim {
            if raw.len() >= 6 {
                assert(raw.skip(4)[0] == raw[4] && raw.skip(4)[1] == raw[5]);
            }
            if joined.len() >= 6 {
                assert(joined.skip(4)[0] == joined[4] && joined.skip(4)[1] == joined[5]);
            }
            if at > 6 {
                assert(joined[6] == raw[6]);
            }
        }
    }
    if !has_verbatim_drive(style, raw) {
        a_name_ends_where_it_did(raw, joined, at, 2);
        a_name_ends_where_it_did(raw, joined, at, first + 1);
        assert(joined.subrange(first + 1, second) =~= raw.subrange(first + 1, second));
        if verbatim && raw.subrange(first + 1, second) == seq![85u8, 78, 67] {
            a_name_ends_where_it_did(raw, joined, at, second + 1);
            a_name_ends_where_it_did(raw, joined, at, third + 1);
        }
    }
}

/// Whether bytes are a plain name: there are some, they are neither a dot nor a
/// double dot, and no separator or colon is among them.
pub open spec fn is_plain(style: PathStyle, name: Seq<u8>) -> bool {
    &&& name.len() > 0
    &&& name != seq![46u8]
    &&& name != seq![46u8, 46]
    &&& forall|i: int|
        0 <= i < name.len() ==> !is_separator(style, #[trigger] name[i]) && name[i] != 58
}

/// Whether a name that is joined to a path becomes no part of a prefix, and
/// makes no root behind one.
pub open spec fn takes_names(path: PathView) -> bool {
    let (style, raw) = (path.style, path.raw);
    let at = prefix_end(style, raw);
    if is_verbatim(style, raw) {
        at < raw.len() && raw[at] == 92
    } else {
        style == PathStyle::Windows && raw.len() >= 2 && is_separator(style, raw[0])
            && is_separator(style, raw[1]) ==> at > 0
    }
}

/// A plain name leads to a place right below the path that it is joined to.
pub proof fn a_plain_name_stays_below(path: PathView, name: Seq<char>)
    requires
        takes_names(path),
        is_plain(path.style, encode_utf8(name)),
    ensures
        place(child(path, name)) == (Place {
            names: place(path).names.push(encode_utf8(name)),
            ..place(path)
        }),
{
    let (style, raw) = (path.style, path.raw);
    let added = encode_utf8(name);
    let at = prefix_end(style, raw);
    let manner = Manner::of(style, raw);
    let joined = raw_child(style, raw, added);
    assert(!is_separator(style, added[0]));
    if added.len() > 1 {
        assert(!is_separator(style, added[1]) && added[1] != 58);
    }
    assert(prefix_end(style, added) == 0 && !rooted(style, added));
    assert forall|i: int| 0 <= i < added.len() implies !manner.separates(#[trigger] added[i]) by {
        assert(!is_separator(style, added[i]));
    }
    prefix_fits(style, raw);
    if is_verbatim(style, raw) {
        a_verbatim_path_takes_a_name(raw, added);
    } else {
        an_open_path_takes_a_name(style, raw, added);
    }
    assert(place(child(path, name)).prefix =~= place(path).prefix) by {
        assert forall|i: int| 0 <= i < at implies prefix_byte(style, joined, i) == prefix_byte(
            style,
            raw,
            i,
        ) by {
            assert(joined[i] == joined.take(at)[i]);
            assert(raw[i] == raw.take(at)[i]);
        }
    }
}

proof fn prefix_fits(style: PathStyle, raw: Seq<u8>)
    ensures
        0 <= prefix_end(style, raw) <= raw.len(),
{
    let first = name_end(style, raw, 2);
    name_end_is_behind(style, raw, 2);
    let second = name_end(style, raw, first + 1);
    name_end_is_behind(style, raw, first + 1);
    let third = name_end(style, raw, second + 1);
    name_end_is_behind(style, raw, second + 1);
    name_end_is_behind(style, raw, third + 1);
    if raw.len() >= 2 {
        a_name_ends_inside(style, raw, 2);
    }
    if is_verbatim(style, raw) {
        let start = raw.take(4);
        assert(start[2] == 63 && start[3] == 92);
        assert(raw[2] == 63 && raw[3] == 92);
        reveal_with_fuel(name_end, 3);
        assert(first == 3);
    }
    if first + 1 <= raw.len() {
        a_name_ends_inside(style, raw, first + 1);
    }
}

proof fn a_name_ends_inside(style: PathStyle, raw: Seq<u8>, from: int)
    requires
        0 <= from <= raw.len(),
    ensures
        name_end(style, raw, from) <= raw.len(),
        name_end(style, raw, from) < raw.len() ==> Manner::of(style, raw).separates(
            raw[name_end(style, raw, from)],
        ),
        name_end(style, raw, from) > from ==> !Manner::of(style, raw).separates(
            raw[name_end(style, raw, from) - 1],
        ),
    decreases raw.len() - from,
{
    if from < raw.len() && !Manner::of(style, raw).separates(raw[from]) {
        name_end_is_behind(style, raw, from + 1);
        a_name_ends_inside(style, raw, from + 1);
    }
}

/// Whether a path has the prefix and the root of another, and a name more.
spec fn extends(style: PathStyle, raw: Seq<u8>, joined: Seq<u8>, name: Seq<u8>) -> bool {
    let at = prefix_end(style, raw);
    &&& prefix_end(style, joined) == at
    &&& at <= joined.len()
    &&& joined.take(at) == raw.take(at)
    &&& has_drive(style, joined) == has_drive(style, raw)
    &&& is_verbatim(style, joined) == is_verbatim(style, raw)
    &&& has_verbatim_drive(style, joined) == has_verbatim_drive(style, raw)
    &&& rooted(style, joined) == rooted(style, raw)
    &&& dotted(style, joined) == dotted(style, raw)
    &&& names_of(style, joined) == names_of(style, raw).push(name)
}

proof fn a_verbatim_path_takes_a_name(raw: Seq<u8>, added: Seq<u8>)
    requires
        is_verbatim(PathStyle::Windows, raw),
        takes_names(PathView { raw, style: PathStyle::Windows }),
        is_plain(PathStyle::Windows, added),
        prefix_end(PathStyle::Windows, added) == 0,
        !rooted(PathStyle::Windows, added),
    ensures
        extends(
            PathStyle::Windows,
            raw,
            raw_child(PathStyle::Windows, raw, added),
            added,
        ),
{
    let style = PathStyle::Windows;
    let at = prefix_end(style, raw);
    let manner = Manner::of(style, raw);
    let joined = raw_child(style, raw, added);
    let names = names_of(style, raw);
    verbatim_has_prefix(raw);
    assert(!is_verbatim(style, added)) by {
        if is_verbatim(style, added) {
            verbatim_has_prefix(added);
        }
    }
    assert(names_of(style, added) =~= seq![added]) by {
        let plain = Manner::of(style, added);
        assert(added.skip(0) =~= added);
        assert(Seq::<u8>::empty() + added =~= added);
        assert forall|i: int| 0 <= i < added.len() implies !plain.separates(
            #[trigger] added[i],
        ) by {
            assert(!is_separator(style, added[i]));
        }
        a_name_is_added(plain, Seq::empty(), added);
        assert(plain.names_in(Seq::empty()) =~= Seq::<Seq<u8>>::empty());
    }
    let more = seq![added];
    assert(more.drop_last() =~= Seq::<Seq<u8>>::empty());
    assert(more.last() == added);
    assert(resolved(names, more.drop_last()) == names);
    assert(resolved(names, more) == names.push(added));
    names_are_spelled(manner, raw.skip(at));
    let all = names.push(added);
    assert(spelled(manner, all)) by {
        assert forall|k: int, i: int|
            #![trigger all[k][i]]
            0 <= k < all.len() && 0 <= i < all[k].len() implies !manner.separates(all[k][i]) by {
            if k == names.len() {
                assert(!is_separator(style, added[i]));
            } else {
                assert(all[k] == names[k]);
                assert(!manner.separates(names[k][i]));
            }
        }
    }
    assert(filled(all)) by {
        assert forall|k: int| 0 <= k < all.len() implies (#[trigger] all[k]).len() > 0 by {
            if k < names.len() {
                assert(names[k].len() > 0);
            }
        }
    }
    names_are_read_back(manner, raw.take(at), all);
    assert(!has_drive(style, raw)) by {
        assert(raw.take(4)[0] == 92);
    }
    a_prefix_is_kept(raw, joined, at);
}

proof fn an_open_path_takes_a_name(style: PathStyle, raw: Seq<u8>, added: Seq<u8>)
    requires
        !is_verbatim(style, raw),
        takes_names(PathView { raw, style }),
        is_plain(style, added),
        prefix_end(style, added) == 0,
        !rooted(style, added),
    ensures
        extends(style, raw, raw_child(style, raw, added), added),
{
    let at = prefix_end(style, raw);
    prefix_fits(style, raw);
    let manner = Manner::of(style, raw);
    let joined = raw_child(style, raw, added);
    let whole = raw.len() == 0 || is_separator(style, raw.last()) || (has_drive(style, raw)
        && raw.len() == 2);
    let open = if whole {
        raw
    } else {
        raw.push(separator(style))
    };
    assert(joined == open + added);
    assert forall|i: int| 0 <= i < raw.len() implies joined[i] == raw[i] by {}
    assert(joined.take(at) =~= raw.take(at));
    assert(!is_separator(style, added[0]));
    if added.len() > 1 {
        assert(!is_separator(style, added[1]) && added[1] != 58);
    }
    if at > 0 && !has_drive(style, raw) {
        let first = name_end(style, raw, 2);
        name_end_is_behind(style, raw, 2);
        a_name_ends_inside(style, raw, 2);
        name_end_is_behind(style, raw, first + 1);
        a_name_ends_inside(style, raw, first + 1);
        if raw.len() == at {
            assert(!is_separator(style, raw.last()));
            assert(joined[at] == separator(style));
        } else {
            assert(is_separator(style, raw[at]));
        }
        a_prefix_is_kept(raw, joined, at);
    } else {
        assert(!is_verbatim(style, joined)) by {
            if is_verbatim(style, joined) {
                assert(joined.take(4)[0] == 92 && joined.take(4)[1] == 92);
                assert(joined[0] == 92 && joined[1] == 92);
            }
        }
        assert(has_drive(style, joined) == has_drive(style, raw));
        assert(prefix_end(style, joined) == at);
    }
    assert(Manner::of(style, joined) == manner);
    let (tail, rest) = (raw.skip(at), open.skip(at));
    assert(joined.skip(at) =~= rest + added);
    if whole {
        assert(rest =~= tail);
    } else {
        assert(rest =~= tail.push(separator(style)));
        a_separator_ends_a_name(manner, tail, separator(style));
    }
    assert(rest.len() > 0 ==> rest.last() == open.last());
    assert forall|i: int| 0 <= i < added.len() implies !manner.separates(#[trigger] added[i]) by {
        assert(!is_separator(style, added[i]));
    }
    a_name_is_added(manner, rest, added);
    assert(rooted(style, joined) == rooted(style, raw));
    assert(dotted(style, joined) == dotted(style, raw)) by {
        if added.len() == 1 {
            assert(added =~= seq![added[0]]);
        }
    }
}

} // verus!
