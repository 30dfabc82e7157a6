//! The file name in a path, as Unix and Windows read paths.

use vstd::prelude::*;

use crate::bytes::same_bytes;

verus! {

/// How a path is split into its parts.
#[derive(Debug, Clone, Copy, PartialEq, Eq, Structural)]
pub enum PathStyle {
    /// By slashes; empty parts and single dots do not count.
    Unix,
    /// By slashes and backslashes; empty parts and single dots do not count.
    Windows,
    /// By backslashes alone; only empty parts do not count.
    Verbatim,
}

/// Whether a byte is a slash or a backslash.
pub open spec fn is_slash(byte: u8) -> bool {
    byte == 0x2f || byte == 0x5c
}

/// Whether a byte separates the parts of a path.
pub open spec fn is_separator(byte: u8, style: PathStyle) -> bool {
    match style {
        PathStyle::Unix => byte == 0x2f,
        PathStyle::Windows => is_slash(byte),
        PathStyle::Verbatim => byte == 0x5c,
    }
}

/// Whether a byte is an ASCII letter.
pub open spec fn is_letter(byte: u8) -> bool {
    0x41 <= byte <= 0x5a || 0x61 <= byte <= 0x7a
}

/// The length of the first part of a path.
pub open spec fn first_part_len(path: Seq<u8>, style: PathStyle) -> nat
    decreases path.len(),
{
    if path.len() == 0 || is_separator(path[0], style) {
        0
    } else {
        1 + first_part_len(path.drop_first(), style)
    }
}

/// The length of the part behind the first one.
pub open spec fn second_part_len(path: Seq<u8>, style: PathStyle) -> nat {
    let first = first_part_len(path, style) as int;
    if first < path.len() {
        first_part_len(path.skip(first + 1), style)
    } else {
        0
    }
}

/// Whether a path begins with the letter of a drive and a colon.
pub open spec fn has_drive(path: Seq<u8>) -> bool {
    path.len() >= 2 && is_letter(path[0]) && path[1] == 0x3a
}

/// Whether a Windows path is verbatim: it begins with `\\?\`, in backslashes.
pub open spec fn is_verbatim(path: Seq<u8>) -> bool {
    path.len() >= 4 && path[0] == 0x5c && path[1] == 0x5c && path[2] == 0x3f && path[3] == 0x5c
}

/// Whether what follows `\\?\` is `UNC` and a separator.
pub open spec fn names_share(rest: Seq<u8>) -> bool {
    rest.len() >= 4 && rest[0] == 0x55 && rest[1] == 0x4e && rest[2] == 0x43 && is_slash(rest[3])
}

/// The length of a server's name and of the share's name behind it, with what separates them.
pub open spec fn share_len(path: Seq<u8>, style: PathStyle) -> nat {
    let share = second_part_len(path, style);
    first_part_len(path, style) + if share > 0 {
        1 + share
    } else {
        0
    }
}

/// The length of the prefix of a verbatim path: `\\?\UNC\server\share`, `\\?\C:` or `\\?\name`.
pub open spec fn verbatim_prefix_len(path: Seq<u8>) -> nat {
    let rest = path.skip(4);
    if names_share(rest) {
        8 + share_len(path.skip(8), PathStyle::Verbatim)
    } else if has_drive(rest) && (rest.len() == 2 || is_slash(rest[2])) {
        6
    } else {
        4 + first_part_len(rest, PathStyle::Verbatim)
    }
}

/// The length of the prefix of a Windows path: a drive `C:`, a share `\\server\share`, a device
/// `\\.\name`, or that of a verbatim path.
pub open spec fn prefix_len(path: Seq<u8>) -> nat {
    if is_verbatim(path) {
        verbatim_prefix_len(path)
    } else if path.len() >= 2 && is_slash(path[0]) && is_slash(path[1]) {
        if path.len() >= 4 && path[2] == 0x2e && is_slash(path[3]) {
            4 + first_part_len(path.skip(4), PathStyle::Windows)
        } else {
            let rest = path.skip(2);
            if first_part_len(rest, PathStyle::Windows) > 0 && second_part_len(
                rest,
                PathStyle::Windows,
            ) > 0 {
                2 + share_len(rest, PathStyle::Windows)
            } else {
                0
            }
        }
    } else if has_drive(path) {
        2
    } else {
        0
    }
}

/// How a path is split into its parts.
pub open spec fn style_of(path: Seq<u8>, windows: bool) -> PathStyle {
    if !windows {
        PathStyle::Unix
    } else if is_verbatim(path) {
        PathStyle::Verbatim
    } else {
        PathStyle::Windows
    }
}

/// Where the parts of a path begin: behind its prefix and the separator that makes it absolute.
pub open spec fn parts_start(path: Seq<u8>, windows: bool) -> int {
    let prefix = prefix_len(path) as int;
    if !windows {
        0
    } else if prefix < path.len() && is_slash(path[prefix]) {
        prefix + 1
    } else {
        prefix
    }
}

/// The length of the last part of a path.
pub open spec fn last_part_len(path: Seq<u8>, style: PathStyle) -> nat
    decreases path.len(),
{
    if path.len() == 0 || is_separator(path.last(), style) {
        0
    } else {
        1 + last_part_len(path.drop_last(), style)
    }
}

/// Whether a part does not count.
pub open spec fn is_idle(part: Seq<u8>, style: PathStyle) -> bool {
    part.len() == 0 || (part == seq![0x2eu8] && style != PathStyle::Verbatim)
}

/// The last part of a path, apart from those that do not count.
pub open spec fn last_part(path: Seq<u8>, style: PathStyle) -> Seq<u8>
    decreases path.len(),
    via last_part_decreases
{
    let start = path.len() - last_part_len(path, style);
    let part = path.skip(start);
    if start > 0 && is_idle(part, style) {
        last_part(path.take(start - 1), style)
    } else {
        part
    }
}

proof fn lemma_last_part_len(path: Seq<u8>, style: PathStyle)
    ensures
        last_part_len(path, style) <= path.len(),
    decreases path.len(),
{
    if path.len() > 0 && !is_separator(path.last(), style) {
        lemma_last_part_len(path.drop_last(), style);
    }
}

#[via_fn]
proof fn last_part_decreases(path: Seq<u8>, style: PathStyle) {
    lemma_last_part_len(path, style);
}

/// The file name in a path: its last part, unless there is none or it is a dot or a pair of dots.
pub open spec fn file_name(path: Seq<u8>, windows: bool) -> Option<Seq<u8>> {
    let part = last_part(path.skip(parts_start(path, windows)), style_of(path, windows));
    if part.len() == 0 || part == seq![0x2eu8] || part == seq![0x2eu8, 0x2eu8] {
        None
    } else {
        Some(part)
    }
}

fn separates(byte: u8, style: PathStyle) -> (separates: bool)
    ensures
        separates == is_separator(byte, style),
{
    match style {
        PathStyle::Unix => byte == 0x2f,
        PathStyle::Windows => byte == 0x2f || byte == 0x5c,
        PathStyle::Verbatim => byte == 0x5c,
    }
}

fn slashed(byte: u8) -> (slash: bool)
    ensures
        slash == is_slash(byte),
{
    byte == 0x2f || byte == 0x5c
}

/// Where the part that begins at `from` ends.
fn part_end(path: &[u8], from: usize, style: PathStyle) -> (end: usize)
    requires
        from <= path@.len(),
    ensures
        from <= end <= path@.len(),
        end == from + first_part_len(path@.skip(from as int), style),
{
    let mut end: usize = from;
    while end < path.len() && !separates(path[end], style)
        invariant
            from <= end <= path@.len(),
            first_part_len(path@.skip(from as int), style) == end - from + first_part_len(
                path@.skip(end as int),
                style,
            ),
        decreases path@.len() - end,
    {
        assert(path@.skip(end as int)[0] == path@[end as int]);
        assert(path@.skip(end as int).drop_first() =~= path@.skip(end as int + 1));
        end = end + 1;
    }
    if end < path.len() {
        assert(path@.skip(end as int)[0] == path@[end as int]);
    }
    assert(first_part_len(path@.skip(end as int), style) == 0);
    end
}

/// Where a server's and a share's name that begin at `from` end, and whether there are both.
fn share_end(path: &[u8], from: usize, style: PathStyle) -> (share: (usize, bool))
    requires
        from <= path@.len(),
    ensures
        from <= share.0 <= path@.len(),
        share.0 == from + share_len(path@.skip(from as int), style),
        share.1 == (first_part_len(path@.skip(from as int), style) > 0 && second_part_len(
            path@.skip(from as int),
            style,
        ) > 0),
{
    let server = part_end(path, from, style);
    let ghost rest = path@.skip(from as int);
    if server == path.len() {
        return (server, false);
    }
    let end = part_end(path, server + 1, style);
    assert(rest.skip(server - from + 1) =~= path@.skip(server as int + 1));
    if end == server + 1 {
        (server, false)
    } else {
        (end, server > from)
    }
}

fn drive_at(path: &[u8], from: usize) -> (drive: bool)
    requires
        from <= path@.len(),
    ensures
        drive == has_drive(path@.skip(from as int)),
{
    if path.len() - from < 2 {
        return false;
    }
    let ghost rest = path@.skip(from as int);
    assert(rest[0] == path@[from as int] && rest[1] == path@[from as int + 1]);
    let letter: u8 = path[from];
    ((0x41 <= letter && letter <= 0x5a) || (0x61 <= letter && letter <= 0x7a)) && path[from + 1]
        == 0x3a
}

fn verbatim(path: &[u8]) -> (verbatim: bool)
    ensures
        verbatim == is_verbatim(path@),
{
    path.len() >= 4 && path[0] == 0x5c && path[1] == 0x5c && path[2] == 0x3f && path[3] == 0x5c
}

fn verbatim_prefix_end(path: &[u8]) -> (end: usize)
    requires
        is_verbatim(path@),
    ensures
        end <= path@.len(),
        end == verbatim_prefix_len(path@),
{
    let ghost rest = path@.skip(4);
    assert forall|i: int| 0 <= i < rest.len() implies rest[i] == path@[4 + i] by {}
    if path.len() >= 8 && path[4] == 0x55 && path[5] == 0x4e && path[6] == 0x43 && slashed(path[7]) {
        return share_end(path, 8, PathStyle::Verbatim).0;
    }
    if drive_at(path, 4) && (path.len() == 6 || slashed(path[6])) {
        return 6;
    }
    part_end(path, 4, PathStyle::Verbatim)
}

fn prefix_end(path: &[u8]) -> (end: usize)
    ensures
        end <= path@.len(),
        end == prefix_len(path@),
{
    if verbatim(path) {
        return verbatim_prefix_end(path);
    }
    if path.len() >= 2 && slashed(path[0]) && slashed(path[1]) {
        if path.len() >= 4 && path[2] == 0x2e && slashed(path[3]) {
            return part_end(path, 4, PathStyle::Windows);
        }
        let (end, both) = share_end(path, 2, PathStyle::Windows);
        return if both {
            end
        } else {
            0
        };
    }
    assert(path@.skip(0) =~= path@);
    if drive_at(path, 0) {
        2
    } else {
        0
    }
}

/// Whether `name` is the file name in a path.
pub fn has_file_name(path: &[u8], name: &[u8], windows: bool) -> (found: bool)
    ensures
        found == (file_name(path@, windows) == Some(name@)),
{
    let mut from: usize = 0;
    let mut style = PathStyle::Unix;
    if windows {
        from = prefix_end(path);
        if from < path.len() && slashed(path[from]) {
            from = from + 1;
        }
        style = if verbatim(path) {
            PathStyle::Verbatim
        } else {
            PathStyle::Windows
        };
    }
    let ghost whole = path@.skip(from as int);
    let mut end: usize = path.len();
    assert(path@.subrange(from as int, end as int) =~= whole);
    loop
        invariant
            from <= end <= path@.len(),
            from == parts_start(path@, windows),
            style == style_of(path@, windows),
            whole == path@.skip(from as int),
            last_part(whole, style) == last_part(path@.subrange(from as int, end as int), style),
        decreases end,
    {
        let ghost rest = path@.subrange(from as int, end as int);
        let mut start: usize = end;
        assert(path@.subrange(from as int, start as int) =~= rest);
        while start > from && !separates(path[start - 1], style)
            invariant
                from <= start <= end <= path@.len(),
                rest == path@.subrange(from as int, end as int),
                last_part_len(rest, style) == end - start + last_part_len(
                    path@.subrange(from as int, start as int),
                    style,
                ),
            decreases start,
        {
            let ghost front = path@.subrange(from as int, start as int);
            assert(front.last() == path@[start as int - 1]);
            assert(front.drop_last() =~= path@.subrange(from as int, start as int - 1));
            start = start - 1;
        }
        proof {
            let front = path@.subrange(from as int, start as int);
            if start > from {
                assert(front.last() == path@[start as int - 1]);
            }
            assert(last_part_len(front, style) == 0);
            assert(rest.skip(start - from) =~= path@.subrange(start as int, end as int));
        }
        let part = &path[start..end];
        let dot = same_bytes(part, &[0x2e]);
        assert([0x2eu8]@ =~= seq![0x2eu8]);
        if start > from && (part.len() == 0 || (dot && style != PathStyle::Verbatim)) {
            assert(rest.take(start - from - 1) =~= path@.subrange(from as int, start as int - 1));
            end = start - 1;
        } else {
            let dots = same_bytes(part, &[0x2e, 0x2e]);
            assert([0x2eu8, 0x2eu8]@ =~= seq![0x2eu8, 0x2eu8]);
            return part.len() > 0 && !dot && !dots && same_bytes(part, name);
        }
    }
}

proof fn lemma_last_part_of(front: Seq<u8>, part: Seq<u8>, style: PathStyle)
    requires
        front.len() == 0 || is_separator(front.last(), style),
        forall|i: int| 0 <= i < part.len() ==> !is_separator(#[trigger] part[i], style),
    ensures
        last_part_len(front + part, style) == part.len(),
    decreases part.len(),
{
    if part.len() == 0 {
        assert(front + part =~= front);
    } else {
        assert((front + part).last() == part[part.len() - 1]);
        assert((front + part).drop_last() =~= front + part.drop_last());
        lemma_last_part_of(front, part.drop_last(), style);
    }
}

proof fn lemma_last_part(front: Seq<u8>, part: Seq<u8>, style: PathStyle)
    requires
        front.len() == 0 || is_separator(front.last(), style),
        forall|i: int| 0 <= i < part.len() ==> !is_separator(#[trigger] part[i], style),
    ensures
        front.len() > 0 && is_idle(part, style) ==> last_part(front + part, style) == last_part(
            front.drop_last(),
            style,
        ),
        front.len() == 0 || !is_idle(part, style) ==> last_part(front + part, style) == part,
{
    lemma_last_part_of(front, part, style);
    assert((front + part).skip(front.len() as int) =~= part);
    if front.len() > 0 {
        assert((front + part).take(front.len() - 1) =~= front.drop_last());
    }
}

/// Law: the file name in a Unix path is what follows its last slash, or the whole path where it has
/// none. A slash at the end, or a slash and a dot, changes nothing. A path that ends in two dots, and
/// one of slashes alone, have no file name.
pub proof fn law_unix_file_names(directory: Seq<u8>, name: Seq<u8>)
    ensures
        name.len() > 0 && (forall|i: int| 0 <= i < name.len() ==> #[trigger] name[i] != 0x2f)
            && name != seq![0x2eu8] && name != seq![0x2eu8, 0x2eu8] ==> file_name(name, false)
            == Some(name) && file_name(directory + seq![0x2fu8] + name, false) == Some(name),
        file_name(directory + seq![0x2fu8], false) == file_name(directory, false),
        file_name(directory + seq![0x2fu8] + seq![0x2eu8], false) == file_name(directory, false),
        file_name(directory + seq![0x2fu8] + seq![0x2eu8, 0x2eu8], false) is None,
        file_name(seq![0x2eu8, 0x2eu8], false) is None,
        file_name(seq![0x2eu8], false) is None,
        file_name(Seq::empty(), false) is None,
{
    let none = Seq::<u8>::empty();
    let dot = seq![0x2eu8];
    let dots = seq![0x2eu8, 0x2eu8];
    let front = directory + seq![0x2fu8];
    assert(front.last() == 0x2f);
    assert(front.drop_last() =~= directory);
    assert(front + none =~= front);
    assert(dots.len() == 2 && dot.len() == 1);
    lemma_last_part(front, none, PathStyle::Unix);
    lemma_last_part(front, dot, PathStyle::Unix);
    lemma_last_part(front, dots, PathStyle::Unix);
    lemma_last_part(none, dot, PathStyle::Unix);
    lemma_last_part(none, dots, PathStyle::Unix);
    lemma_last_part(none, none, PathStyle::Unix);
    assert(none + dot =~= dot && none + dots =~= dots && none + none =~= none);
    assert(none.skip(0) =~= none && dot.skip(0) =~= dot && dots.skip(0) =~= dots);
    assert(front.skip(0) =~= front && directory.skip(0) =~= directory);
    assert((front + dot).skip(0) =~= front + dot);
    assert((front + dots).skip(0) =~= front + dots);
    if name.len() > 0 && (forall|i: int| 0 <= i < name.len() ==> #[trigger] name[i] != 0x2f)
        && name != dot && name != dots {
        lemma_last_part(front, name, PathStyle::Unix);
        lemma_last_part(none, name, PathStyle::Unix);
        assert(none + name =~= name && name.skip(0) =~= name);
        assert((front + name).skip(0) =~= front + name);
    }
}

/// Law: the file name in a Windows path without a prefix is what follows the last slash or
/// backslash. A separator at the end, or a separator and a dot, changes nothing, and a path that ends
/// in two dots has no file name.
pub proof fn law_windows_file_names(directory: Seq<u8>, slash: u8, name: Seq<u8>)
    requires
        slash == 0x2f || slash == 0x5c,
        directory.len() >= 2 && directory[0] != 0x2f && directory[0] != 0x5c && directory[1] != 0x3a,
    ensures
        name.len() > 0 && (forall|i: int|
            0 <= i < name.len() ==> #[trigger] name[i] != 0x2f && name[i] != 0x5c) && name
            != seq![0x2eu8] && name != seq![0x2eu8, 0x2eu8] ==> file_name(
            directory + seq![slash] + name,
            true,
        ) == Some(name),
        file_name(directory + seq![slash], true) == file_name(directory, true),
        file_name(directory + seq![slash] + seq![0x2eu8], true) == file_name(directory, true),
        file_name(directory + seq![slash] + seq![0x2eu8, 0x2eu8], true) is None,
{
    let none = Seq::<u8>::empty();
    let dot = seq![0x2eu8];
    let dots = seq![0x2eu8, 0x2eu8];
    let front = directory + seq![slash];
    assert(front.last() == slash);
    assert(front.drop_last() =~= directory);
    assert(front[0] == directory[0] && front[1] == directory[1]);
    assert(front + none =~= front);
    assert(dots.len() == 2 && dot.len() == 1);
    lemma_last_part(front, none, PathStyle::Windows);
    lemma_last_part(front, dot, PathStyle::Windows);
    lemma_last_part(front, dots, PathStyle::Windows);
    assert(front.skip(0) =~= front && directory.skip(0) =~= directory);
    assert((front + dot).skip(0) =~= front + dot);
    assert((front + dots).skip(0) =~= front + dots);
    if name.len() > 0 && (forall|i: int|
        0 <= i < name.len() ==> #[trigger] name[i] != 0x2f && name[i] != 0x5c) && name != dot
        && name != dots {
        lemma_last_part(front, name, PathStyle::Windows);
        assert((front + name).skip(0) =~= front + name);
    }
}

/// Law: a drive is no part of what follows it: the file name in `C:\` and a name, or in `C:` and a
/// name, is the name.
pub proof fn law_drives_are_no_names(letter: u8, slash: u8, name: Seq<u8>)
    requires
        'a' as u8 <= letter <= 'z' as u8 || 'A' as u8 <= letter <= 'Z' as u8,
        slash == 0x2f || slash == 0x5c,
        name.len() > 0 && name != seq![0x2eu8] && name != seq![0x2eu8, 0x2eu8],
        forall|i: int| 0 <= i < name.len() ==> #[trigger] name[i] != 0x2f && name[i] != 0x5c,
    ensures
        file_name(seq![letter, 0x3au8] + name, true) == Some(name),
        file_name(seq![letter, 0x3au8, slash] + name, true) == Some(name),
        file_name(seq![letter, 0x3au8], true) is None,
        file_name(seq![letter, 0x3au8, slash], true) is None,
{
    let none = Seq::<u8>::empty();
    let bare = seq![letter, 0x3au8];
    let rooted = seq![letter, 0x3au8, slash];
    assert((bare + name)[0] == letter && (bare + name)[1] == 0x3a && (bare + name)[2] == name[0]);
    assert((rooted + name)[0] == letter && (rooted + name)[1] == 0x3a && (rooted + name)[2]
        == slash);
    assert((bare + name).skip(2) =~= name);
    assert((rooted + name).skip(3) =~= name);
    assert(bare.skip(2) =~= none);
    assert(rooted.skip(3) =~= none);
    assert(none + name =~= name && none + none =~= none);
    lemma_last_part(none, name, PathStyle::Windows);
    lemma_last_part(none, none, PathStyle::Windows);
}

/// Law: the prefix of a Windows path ends behind the share, the device, the drive or, in a verbatim
/// path, the server and its share, the drive or the name; any other path has none.
pub proof fn law_prefixes_by_their_beginnings(path: Seq<u8>)
    ensures
        ({
            let twice = path.len() >= 2 && (path[0] == 0x2f || path[0] == 0x5c) && (path[1] == 0x2f
                || path[1] == 0x5c);
            let letter = path.len() >= 2 && ('a' as u8 <= path[0] <= 'z' as u8 || 'A' as u8
                <= path[0] <= 'Z' as u8) && path[1] == 0x3a;
            let verbatim = path.len() >= 4 && path[0] == 0x5c && path[1] == 0x5c && path[2] == 0x3f
                && path[3] == 0x5c;
            let device = path.len() >= 4 && twice && path[2] == 0x2e && (path[3] == 0x2f || path[3]
                == 0x5c);
            let server = first_part_len(path.skip(2), PathStyle::Windows);
            let share = second_part_len(path.skip(2), PathStyle::Windows);
            let far_server = first_part_len(path.skip(8), PathStyle::Verbatim);
            let far_share = second_part_len(path.skip(8), PathStyle::Verbatim);
            let far = path.len() >= 8 && path[4] == 'U' as u8 && path[5] == 'N' as u8 && path[6]
                == 'C' as u8 && (path[7] == 0x2f || path[7] == 0x5c);
            let far_drive = path.len() >= 6 && ('a' as u8 <= path[4] <= 'z' as u8 || 'A' as u8
                <= path[4] <= 'Z' as u8) && path[5] == 0x3a && (path.len() == 6 || path[6] == 0x2f
                || path[6] == 0x5c);
            &&& !twice && letter ==> prefix_len(path) == 2
            &&& !twice && !letter ==> prefix_len(path) == 0
            &&& twice && !verbatim && device ==> prefix_len(path) == 4 + first_part_len(
                path.skip(4),
                PathStyle::Windows,
            )
            &&& twice && !verbatim && !device && server > 0 && share > 0 ==> prefix_len(path) == 2
                + server + 1 + share
            &&& twice && !verbatim && !device && (server == 0 || share == 0) ==> prefix_len(path)
                == 0
            &&& verbatim && far && far_share > 0 ==> prefix_len(path) == 8 + far_server + 1
                + far_share
            &&& verbatim && far && far_share == 0 ==> prefix_len(path) == 8 + far_server
            &&& verbatim && !far && far_drive ==> prefix_len(path) == 6
            &&& verbatim && !far && !far_drive ==> prefix_len(path) == 4 + first_part_len(
                path.skip(4),
                PathStyle::Verbatim,
            )
            &&& style_of(path, true) == (if verbatim {
                PathStyle::Verbatim
            } else {
                PathStyle::Windows
            })
            &&& style_of(path, false) == PathStyle::Unix
            &&& parts_start(path, false) == 0
            &&& parts_start(path, true) == prefix_len(path) + (if prefix_len(path) < path.len() && (
            path[prefix_len(path) as int] == 0x2f || path[prefix_len(path) as int] == 0x5c) {
                1int
            } else {
                0int
            })
        }),
{
    let rest = path.skip(4);
    if path.len() >= 4 {
        assert forall|i: int| 0 <= i < rest.len() implies rest[i] == path[4 + i] by {}
    }
}

/// Law: the first part of a path ends at the first separator, the second one at the next: slashes in
/// a Unix path, either in a Windows path, and backslashes alone in a verbatim one.
pub proof fn law_parts_end_at_separators(part: Seq<u8>, rest: Seq<u8>, style: PathStyle)
    requires
        forall|i: int|
            0 <= i < part.len() ==> match style {
                PathStyle::Unix => #[trigger] part[i] != 0x2f,
                PathStyle::Windows => part[i] != 0x2f && part[i] != 0x5c,
                PathStyle::Verbatim => part[i] != 0x5c,
            },
        rest.len() > 0 ==> match style {
            PathStyle::Unix => rest[0] == 0x2f,
            PathStyle::Windows => rest[0] == 0x2f || rest[0] == 0x5c,
            PathStyle::Verbatim => rest[0] == 0x5c,
        },
    ensures
        first_part_len(part + rest, style) == part.len(),
        rest.len() > 0 ==> second_part_len(part + rest, style) == first_part_len(
            rest.skip(1),
            style,
        ),
        rest.len() == 0 ==> second_part_len(part + rest, style) == 0,
    decreases part.len(),
{
    if part.len() == 0 {
        assert(part + rest =~= rest);
    } else {
        assert((part + rest)[0] == part[0]);
        assert((part + rest).drop_first() =~= part.drop_first() + rest);
        law_parts_end_at_separators(part.drop_first(), rest, style);
    }
    if rest.len() > 0 {
        assert((part + rest).skip(part.len() as int + 1) =~= rest.skip(1));
    }
}

/// Law: in a verbatim path only backslashes separate parts, and a dot is a part like any other.
pub proof fn law_verbatim_parts(front: Seq<u8>, part: Seq<u8>)
    requires
        part.len() > 0,
        forall|i: int| 0 <= i < part.len() ==> #[trigger] part[i] != 0x5c,
    ensures
        last_part(front + seq![0x5cu8] + part, PathStyle::Verbatim) == part,
        last_part(front + seq![0x5cu8], PathStyle::Verbatim) == last_part(
            front,
            PathStyle::Verbatim,
        ),
{
    let whole = front + seq![0x5cu8];
    assert(whole.last() == 0x5c && whole.drop_last() =~= front);
    assert(whole + Seq::<u8>::empty() =~= whole);
    lemma_last_part(whole, part, PathStyle::Verbatim);
    lemma_last_part(whole, Seq::empty(), PathStyle::Verbatim);
}

} // verus!
