//! Where the settings program is.

use vstd::prelude::*;

use crate::strings::{chars_of, text_of};

verus! {

/// The settings program.
pub const SETTINGS_EXE: &'static str = "Azookey.exe";

/// Whether a character separates the parts of an ordinary path.
pub open spec fn is_separator(c: char) -> bool {
    c == '\\' || c == '/'
}

fn separates(c: char) -> (separator: bool)
    ensures
        separator == is_separator(c),
{
    c == '\\' || c == '/'
}

/// Whether a path is a drive and nothing else. What is joined to it without a
/// separator names a place relative to the drive.
pub open spec fn is_drive(path: Seq<char>) -> bool {
    path.len() == 2 && path[1] == ':' && ('a' <= path[0] <= 'z' || 'A' <= path[0] <= 'Z')
}

/// Whether a path is taken literally, by what it starts with: a slash and a
/// dot mean nothing in it, and only a backslash separates its parts.
pub open spec fn is_verbatim(path: Seq<char>) -> bool {
    path.len() >= 4 && path[0] == '\\' && path[1] == '\\' && path[2] == '?' && path[3] == '\\'
}

/// Whether a character separates the parts of a path.
pub open spec fn splits(c: char, verbatim: bool) -> bool {
    c == '\\' || (!verbatim && c == '/')
}

/// Where the part of a path that starts at `from` ends: at the next separator,
/// or at the path's end.
pub open spec fn part_end(path: Seq<char>, verbatim: bool, from: int) -> int
    decreases path.len() - from,
{
    if from >= path.len() || splits(path[from], verbatim) {
        from
    } else {
        part_end(path, verbatim, from + 1)
    }
}

/// How long the volume is that a path names first; zero where it names none.
/// It is a drive, or a server and a share behind two separators, or a device
/// behind `\\.\`. In a path that is taken literally it is a server and a share
/// behind `\\?\UNC\`, a drive behind `\\?\`, or any other name there.
pub open spec fn volume_len(path: Seq<char>) -> int {
    if is_verbatim(path) {
        if path.len() >= 8 && path[4] == 'U' && path[5] == 'N' && path[6] == 'C' && is_separator(
            path[7],
        ) {
            let server = part_end(path, true, 8);
            let share = part_end(path, true, server + 1);
            if server + 1 < share {
                share
            } else {
                server
            }
        } else if path.len() >= 6 && is_drive(path.subrange(4, 6)) && (path.len() == 6
            || is_separator(path[6])) {
            6
        } else {
            part_end(path, true, 4)
        }
    } else if path.len() >= 2 && is_separator(path[0]) && is_separator(path[1]) {
        if path.len() >= 4 && path[2] == '.' && is_separator(path[3]) {
            part_end(path, false, 4)
        } else {
            let server = part_end(path, false, 2);
            let share = part_end(path, false, server + 1);
            if 2 < server && server + 1 < share {
                share
            } else {
                0
            }
        }
    } else if path.len() >= 2 && is_drive(path.take(2)) {
        2
    } else {
        0
    }
}

/// How long the root of a path is: its volume, and the separator behind it.
pub open spec fn root_len(path: Seq<char>) -> int {
    let volume = volume_len(path);
    if volume < path.len() && is_separator(path[volume]) {
        volume + 1
    } else {
        volume
    }
}

/// Whether a path says by a dot that it starts where one is.
pub open spec fn starts_here(path: Seq<char>) -> bool {
    let at = volume_len(path);
    &&& !is_verbatim(path)
    &&& at < path.len()
    &&& path[at] == '.'
    &&& at + 1 == path.len() || is_separator(path[at + 1])
}

/// Where the parts of a path start that can be taken off it.
pub open spec fn body_start(path: Seq<char>) -> int {
    if starts_here(path) {
        volume_len(path) + 1
    } else {
        root_len(path)
    }
}

/// What is left of a path that is taken literally when no separator in its
/// body follows another; its root ends in a backslash. `front` is the root.
pub open spec fn single_spaced(path: Seq<char>, body: int, front: Seq<char>) -> Seq<char>
    decreases path.len(),
{
    if path.len() <= body || path.len() == 0 {
        front
    } else {
        let before = single_spaced(path.drop_last(), body, front);
        if path.last() == '\\' && before.len() > 0 && before.last() == '\\' {
            before
        } else {
            before.push(path.last())
        }
    }
}

/// A directory as a name is put behind it. One that is taken literally is
/// written anew, part by part; any other is left as it is spelled.
pub open spec fn respelled(directory: Seq<char>) -> Seq<char> {
    if is_verbatim(directory) && root_len(directory) > volume_len(directory) {
        single_spaced(
            directory,
            root_len(directory),
            directory.take(volume_len(directory)).push('\\'),
        )
    } else {
        directory
    }
}

/// Whether a name can follow a directory without a separator: the directory is
/// not given, ends in a separator, or is a drive. What names a volume and no
/// root takes one all the same where it is taken literally.
pub open spec fn takes_no_separator(directory: Seq<char>) -> bool {
    if is_verbatim(directory) {
        root_len(directory) > volume_len(directory) && respelled(directory).last() == '\\'
    } else {
        directory.len() == 0 || is_separator(directory.last()) || is_drive(directory)
    }
}

/// Whether a text is one name: neither a path of several parts, nor one that
/// starts at a volume, nor a dot or two.
pub open spec fn is_name(name: Seq<char>) -> bool {
    &&& name.len() > 0
    &&& forall|i: int| 0 <= i < name.len() ==> !is_separator(#[trigger] name[i])
    &&& !(name.len() >= 2 && name[1] == ':')
    &&& !(name.len() == 1 && name[0] == '.')
    &&& !(name.len() == 2 && name[0] == '.' && name[1] == '.')
}

/// A name within a directory, with a separator between them where one is
/// needed.
pub open spec fn joined(directory: Seq<char>, name: Seq<char>) -> Seq<char> {
    if takes_no_separator(directory) {
        respelled(directory) + name
    } else {
        respelled(directory).push('\\') + name
    }
}

/// Where the part of a path that ends at `at` starts, in its body.
pub open spec fn part_start(path: Seq<char>, verbatim: bool, body: int, at: int) -> int
    decreases at,
{
    if at <= body || at <= 0 || splits(path[at - 1], verbatim) {
        at
    } else {
        part_start(path, verbatim, body, at - 1)
    }
}

/// A path without what adds nothing at the end of its body: separators, and,
/// unless it is taken literally, parts that are a dot.
pub open spec fn without_tail(path: Seq<char>, verbatim: bool, body: int) -> Seq<char>
    decreases path.len(),
{
    if path.len() <= body || path.len() == 0 {
        path
    } else {
        let start = part_start(path, verbatim, body, path.len() as int);
        if start == path.len() {
            without_tail(path.drop_last(), verbatim, body)
        } else if !verbatim && start == path.len() - 1 && path.last() == '.' {
            without_tail(path.drop_last(), verbatim, body)
        } else {
            path
        }
    }
}

/// The directory of a file, by its path: the path without its last part. The
/// root stays, and with it the separator that makes it one. A root is in no
/// directory, and neither is a path that names nothing; a lone dot is in the
/// directory that nothing names.
pub open spec fn directory_of(path: Seq<char>) -> Option<Seq<char>> {
    let verbatim = is_verbatim(path);
    let body = body_start(path);
    let whole = without_tail(path, verbatim, body);
    if whole.len() > body {
        Some(
            without_tail(
                whole.take(part_start(whole, verbatim, body, whole.len() as int)),
                verbatim,
                body,
            ),
        )
    } else if starts_here(path) && volume_len(path) == 0 {
        Some(Seq::empty())
    } else {
        None
    }
}

proof fn part_end_bounds(path: Seq<char>, verbatim: bool, from: int)
    ensures
        from <= part_end(path, verbatim, from),
        from <= path.len() ==> part_end(path, verbatim, from) <= path.len(),
    decreases path.len() - from,
{
    if !(from >= path.len() || splits(path[from], verbatim)) {
        part_end_bounds(path, verbatim, from + 1);
    }
}

proof fn body_bounds(path: Seq<char>)
    ensures
        0 <= volume_len(path) <= root_len(path) <= path.len(),
        root_len(path) <= body_start(path) <= path.len(),
        is_verbatim(path) ==> volume_len(path) >= 4 && body_start(path) == root_len(path),
{
    part_end_bounds(path, false, 2);
    part_end_bounds(path, false, part_end(path, false, 2) + 1);
    part_end_bounds(path, false, 4);
    part_end_bounds(path, true, 4);
    part_end_bounds(path, true, 8);
    part_end_bounds(path, true, part_end(path, true, 8) + 1);
}

fn divides(c: char, verbatim: bool) -> (separator: bool)
    ensures
        separator == splits(c, verbatim),
{
    c == '\\' || (!verbatim && c == '/')
}

fn starts_verbatim(chars: &[char]) -> (verbatim: bool)
    ensures
        verbatim == is_verbatim(chars@),
{
    chars.len() >= 4 && chars[0] == '\\' && chars[1] == '\\' && chars[2] == '?' && chars[3] == '\\'
}

fn end_of_part(chars: &[char], verbatim: bool, from: usize) -> (end: usize)
    requires
        from <= chars@.len(),
    ensures
        end == part_end(chars@, verbatim, from as int),
        from <= end <= chars@.len(),
{
    let mut end: usize = from;
    while end < chars.len() && !divides(chars[end], verbatim)
        invariant
            from <= end <= chars@.len(),
            part_end(chars@, verbatim, end as int) == part_end(chars@, verbatim, from as int),
        decreases chars@.len() - end,
    {
        end += 1;
    }
    end
}

/// Whether a drive is named at a place.
fn names_drive(chars: &[char], at: usize) -> (drive: bool)
    requires
        at + 2 <= chars@.len(),
    ensures
        drive == is_drive(chars@.subrange(at as int, at + 2)),
{
    let letter: char = chars[at];
    chars[at + 1] == ':' && (('a' <= letter && letter <= 'z') || ('A' <= letter && letter <= 'Z'))
}

fn length_of_verbatim_volume(chars: &[char]) -> (len: usize)
    requires
        is_verbatim(chars@),
    ensures
        len == volume_len(chars@),
        len <= chars@.len(),
{
    let n: usize = chars.len();
    if n >= 8 && chars[4] == 'U' && chars[5] == 'N' && chars[6] == 'C' && separates(chars[7]) {
        let server: usize = end_of_part(chars, true, 8);
        if server == n {
            assert(part_end(chars@, true, server + 1) == server + 1);
            return server;
        }
        let share: usize = end_of_part(chars, true, server + 1);
        return if server + 1 < share {
            share
        } else {
            server
        };
    }
    if n >= 6 && names_drive(chars, 4) && (n == 6 || separates(chars[6])) {
        return 6;
    }
    end_of_part(chars, true, 4)
}

fn length_of_volume(chars: &[char]) -> (len: usize)
    ensures
        len == volume_len(chars@),
        len <= chars@.len(),
{
    if starts_verbatim(chars) {
        return length_of_verbatim_volume(chars);
    }
    let n: usize = chars.len();
    if n < 2 {
        return 0;
    }
    if separates(chars[0]) && separates(chars[1]) {
        if n >= 4 && chars[2] == '.' && separates(chars[3]) {
            return end_of_part(chars, false, 4);
        }
        let server: usize = end_of_part(chars, false, 2);
        if server == n {
            assert(part_end(chars@, false, server + 1) == server + 1);
            return 0;
        }
        let share: usize = end_of_part(chars, false, server + 1);
        return if 2 < server && server + 1 < share {
            share
        } else {
            0
        };
    }
    assert(chars@.take(2) =~= chars@.subrange(0, 2));
    if names_drive(chars, 0) {
        2
    } else {
        0
    }
}

/// Writes the body of a path behind its root, without a separator that follows
/// another.
fn single_space(chars: &[char], body: usize, front: Vec<char>) -> (written: Vec<char>)
    requires
        body <= chars@.len(),
    ensures
        written@ == single_spaced(chars@, body as int, front@),
{
    let mut written = front;
    let mut i: usize = body;
    while i < chars.len()
        invariant
            body <= i <= chars@.len(),
            written@ == single_spaced(chars@.take(i as int), body as int, front@),
        decreases chars@.len() - i,
    {
        assert(chars@.take(i + 1).drop_last() =~= chars@.take(i as int));
        let n: usize = written.len();
        if !(chars[i] == '\\' && n > 0 && written[n - 1] == '\\') {
            written.push(chars[i]);
        }
        i += 1;
    }
    assert(chars@.take(chars@.len() as int) =~= chars@);
    written
}

/// A name within a directory.
pub fn join(directory: &str, name: &str) -> (path: String)
    requires
        is_name(name@),
    ensures
        path@ == joined(directory@, name@),
{
    let mut chars = chars_of(directory);
    let n: usize = chars.len();
    let bare = if starts_verbatim(&chars) {
        let volume: usize = length_of_volume(&chars);
        if volume < n && separates(chars[volume]) {
            let mut front = chars_of(directory);
            front.truncate(volume);
            assert(front@ =~= chars@.take(volume as int));
            front.push('\\');
            chars = single_space(&chars, volume + 1, front);
            let written: usize = chars.len();
            proof {
                front_stays(
                    directory@,
                    volume + 1,
                    directory@.take(volume as int).push('\\'),
                );
            }
            chars[written - 1] == '\\'
        } else {
            false
        }
    } else {
        n == 0 || separates(chars[n - 1]) || (n == 2 && names_drive(&chars, 0))
    };
    proof {
        if n == 2 {
            assert(directory@.subrange(0, 2) =~= directory@);
        }
    }
    let mut path = text_of(&chars);
    if !bare {
        path.push('\\');
    }
    path.push_str(name);
    path
}

proof fn front_stays(path: Seq<char>, body: int, front: Seq<char>)
    ensures
        front.len() <= single_spaced(path, body, front).len(),
    decreases path.len(),
{
    if !(path.len() <= body || path.len() == 0) {
        front_stays(path.drop_last(), body, front);
    }
}

/// The settings program in a directory.
pub fn settings_exe_in(directory: &str) -> (path: String)
    ensures
        path@ == joined(directory@, SETTINGS_EXE@),
{
    proof {
        reveal_strlit("Azookey.exe");
        assert(is_name(SETTINGS_EXE@));
    }
    join(directory, SETTINGS_EXE)
}

fn start_of_part(chars: &[char], verbatim: bool, body: usize) -> (start: usize)
    ensures
        start == part_start(chars@, verbatim, body as int, chars@.len() as int),
        start <= chars@.len(),
        body < chars@.len() ==> body <= start,
{
    let mut start: usize = chars.len();
    while start > body && !divides(chars[start - 1], verbatim)
        invariant
            start <= chars@.len(),
            body < chars@.len() ==> body <= start,
            part_start(chars@, verbatim, body as int, start as int) == part_start(
                chars@,
                verbatim,
                body as int,
                chars@.len() as int,
            ),
        decreases start,
    {
        start -= 1;
    }
    start
}

fn drop_tail(chars: &mut Vec<char>, verbatim: bool, body: usize)
    ensures
        final(chars)@ == without_tail(old(chars)@, verbatim, body as int),
{
    let ghost whole = chars@;
    while chars.len() > body
        invariant
            whole == old(chars)@,
            without_tail(chars@, verbatim, body as int) == without_tail(
                whole,
                verbatim,
                body as int,
            ),
        decreases chars.len(),
    {
        let n: usize = chars.len();
        let start: usize = start_of_part(chars, verbatim, body);
        if start == n || (!verbatim && start == n - 1 && chars[n - 1] == '.') {
            let ghost before = chars@;
            chars.truncate(n - 1);
            assert(chars@ =~= before.drop_last());
        } else {
            return ;
        }
    }
}

/// The directory of a file, by its path.
pub fn dll_directory(path: &str) -> (directory: Option<String>)
    ensures
        match directory {
            Some(directory) => directory_of(path@) == Some(directory@),
            None => directory_of(path@) is None,
        },
{
    let mut chars = chars_of(path);
    let verbatim = starts_verbatim(&chars);
    let volume: usize = length_of_volume(&chars);
    let n: usize = chars.len();
    let here = !verbatim && volume < n && chars[volume] == '.' && (volume + 1 == n || separates(
        chars[volume + 1],
    ));
    let body: usize = if volume < n && (here || separates(chars[volume])) {
        volume + 1
    } else {
        volume
    };
    drop_tail(&mut chars, verbatim, body);
    if chars.len() > body {
        let start: usize = start_of_part(&chars, verbatim, body);
        let ghost whole = chars@;
        chars.truncate(start);
        assert(chars@ =~= whole.take(start as int));
        drop_tail(&mut chars, verbatim, body);
        let text = text_of(&chars);
        return Some(text);
    }
    if here && volume == 0 {
        let nothing = String::new();
        assert(nothing@ =~= Seq::<char>::empty());
        return Some(nothing);
    }
    None
}

/// The settings program, which is installed beside the module. It is never
/// named without a directory: the system would look for it in other places.
pub fn locate(loaded_from: Option<&str>) -> (path: Option<String>)
    ensures
        match path {
            Some(path) => loaded_from is Some && directory_of(loaded_from->0@) is Some
                && directory_of(loaded_from->0@)->0.len() > 0 && path@ == joined(
                directory_of(loaded_from->0@)->0,
                SETTINGS_EXE@,
            ),
            None => loaded_from is None || directory_of(loaded_from->0@) is None || directory_of(
                loaded_from->0@,
            )->0.len() == 0,
        },
{
    match loaded_from {
        Some(loaded_from) => match dll_directory(loaded_from) {
            Some(directory) => if chars_of(&directory).len() > 0 {
                Some(settings_exe_in(&directory))
            } else {
                None
            },
            None => None,
        },
        None => None,
    }
}

proof fn tail_bounds(path: Seq<char>, verbatim: bool, body: int)
    requires
        0 <= body <= path.len(),
    ensures
        body <= without_tail(path, verbatim, body).len() <= path.len(),
        without_tail(path, verbatim, body) == path.take(
            without_tail(path, verbatim, body).len() as int,
        ),
    decreases path.len(),
{
    if without_tail(path, verbatim, body) == path {
        assert(path.take(path.len() as int) =~= path);
    } else {
        tail_bounds(path.drop_last(), verbatim, body);
        let left = without_tail(path, verbatim, body).len() as int;
        assert(path.drop_last().take(left) =~= path.take(left));
    }
}

proof fn part_start_bounds(path: Seq<char>, verbatim: bool, body: int, at: int)
    requires
        0 <= body <= at <= path.len(),
    ensures
        body <= part_start(path, verbatim, body, at) <= at,
    decreases at,
{
    if !(at <= body || splits(path[at - 1], verbatim)) {
        part_start_bounds(path, verbatim, body, at - 1);
    }
}

/// The directory of a file is the front of its path, and the root of the path
/// is the front of it.
pub proof fn the_directory_keeps_the_root(path: Seq<char>)
    requires
        directory_of(path) is Some,
    ensures
        directory_of(path)->0.is_prefix_of(path),
        path.take(root_len(path)).is_prefix_of(directory_of(path)->0),
{
    body_bounds(path);
    let verbatim = is_verbatim(path);
    let body = body_start(path);
    let directory = directory_of(path)->0;
    let whole = without_tail(path, verbatim, body);
    tail_bounds(path, verbatim, body);
    if whole.len() > body {
        let start = part_start(whole, verbatim, body, whole.len() as int);
        part_start_bounds(whole, verbatim, body, whole.len() as int);
        tail_bounds(whole.take(start), verbatim, body);
        assert(directory =~= path.take(directory.len() as int));
    }
    assert(directory =~= path.subrange(0, directory.len() as int));
    assert(path.take(root_len(path)) =~= directory.subrange(0, root_len(path)));
}

proof fn name_is_the_last_part(path: Seq<char>, verbatim: bool, body: int, front: int, at: int)
    requires
        0 <= body <= front <= at <= path.len(),
        front == body || splits(path[front - 1], verbatim),
        forall|i: int| front <= i < at ==> !is_separator(#[trigger] path[i]),
    ensures
        part_start(path, verbatim, body, at) == front,
    decreases at,
{
    if at > front {
        name_is_the_last_part(path, verbatim, body, front, at - 1);
    }
}

/// The settings program is looked for where the module is: the directory of a
/// name within a directory is that directory, wherever the directory is spelled
/// out with nothing to spare and holds the whole root.
pub proof fn the_settings_are_beside_the_module(directory: Seq<char>, name: Seq<char>)
    requires
        is_name(name),
        body_start(joined(directory, name)) <= directory.len(),
        respelled(directory) == directory,
        without_tail(
            directory,
            is_verbatim(directory),
            body_start(joined(directory, name)),
        ) == directory,
    ensures
        directory_of(joined(directory, name)) == Some(directory),
{
    let path = joined(directory, name);
    let body = body_start(path);
    let verbatim = is_verbatim(path);
    body_bounds(path);
    let front = path.len() - name.len();
    assert(path.take(directory.len() as int) =~= directory);
    assert(forall|i: int| 0 <= i < directory.len() ==> path[i] == #[trigger] directory[i]);
    assert(verbatim == is_verbatim(directory));
    assert(forall|i: int| front <= i < path.len() ==> path[i] == #[trigger] name[i - front]);
    assert forall|i: int| front <= i < path.len() implies !is_separator(#[trigger] path[i]) by {
        assert(path[i] == name[i - front]);
    }
    if is_drive(directory) {
        assert(path.take(2) =~= directory);
    }
    name_is_the_last_part(path, verbatim, body, front, path.len() as int);
    assert(path.last() == name[name.len() - 1]);
    assert(without_tail(path, verbatim, body) == path);
    if front == directory.len() {
        assert(path.take(front) =~= directory);
    } else {
        assert(path.take(front) =~= directory.push('\\'));
        assert(directory.push('\\').drop_last() =~= directory);
    }
}

/// Behind a directory that is spelled without a separator at its end one is put
/// before the name, and behind one that is spelled with it none is.
pub proof fn one_separator_stands_before_the_name(directory: Seq<char>, name: Seq<char>)
    requires
        !is_verbatim(directory),
        directory.len() >= 3,
    ensures
        directory.last() == '\\' || directory.last() == '/' ==> joined(directory, name)
            == directory + name,
        directory.last() != '\\' && directory.last() != '/' ==> joined(directory, name)
            == directory + seq!['\\'] + name,
{
    assert(directory.push('\\') + name =~= directory + seq!['\\'] + name);
}

/// Behind a drive the name follows at once: it is relative to the drive.
pub proof fn a_drive_takes_no_separator(drive: Seq<char>, name: Seq<char>)
    requires
        drive.len() == 2,
        'A' <= drive[0] <= 'Z' || 'a' <= drive[0] <= 'z',
        drive[1] == ':',
    ensures
        joined(drive, name) == drive + name,
        volume_len(drive + name) == 2,
{
    assert((drive + name).take(2) =~= drive);
    assert((drive + name)[0] == drive[0]);
    assert((drive + name)[1] == drive[1]);
}

proof fn a_name_ends_at_its_separator(path: Seq<char>, verbatim: bool, from: int, end: int)
    requires
        0 <= from <= end <= path.len(),
        forall|i: int| from <= i < end ==> !is_separator(#[trigger] path[i]),
        end < path.len() ==> path[end] == '\\',
    ensures
        part_end(path, verbatim, from) == end,
    decreases end - from,
{
    if from < end {
        assert(!is_separator(path[from]));
        a_name_ends_at_its_separator(path, verbatim, from + 1, end);
    }
}

/// A server and a share behind two separators are a volume, and so they are
/// behind the prefix of a path that is taken literally; the root reaches to the
/// separator behind the share.
pub proof fn a_server_and_a_share_are_a_volume(
    server: Seq<char>,
    share: Seq<char>,
    rest: Seq<char>,
)
    requires
        is_name(server),
        is_name(share),
        server != seq!['?'],
    ensures
        ({
            let names = server + seq!['\\'] + share + seq!['\\'];
            let plain = seq!['\\', '\\'] + names + rest;
            let literal = seq!['\\', '\\', '?', '\\', 'U', 'N', 'C', '\\'] + names + rest;
            &&& root_len(plain) == 2 + names.len()
            &&& volume_len(plain) == 1 + names.len()
            &&& root_len(literal) == 8 + names.len()
            &&& volume_len(literal) == 7 + names.len()
        }),
{
    let names = server + seq!['\\'] + share + seq!['\\'];
    let plain = seq!['\\', '\\'] + names + rest;
    let literal = seq!['\\', '\\', '?', '\\', 'U', 'N', 'C', '\\'] + names + rest;
    let a = server.len() as int;
    let b = share.len() as int;
    assert(names.len() == a + b + 2);
    assert forall|i: int| 0 <= i < a implies !is_separator(#[trigger] names[i]) by {
        assert(names[i] == server[i]);
    }
    assert forall|i: int| a < i < a + 1 + b implies !is_separator(#[trigger] names[i]) by {
        assert(names[i] == share[i - a - 1]);
    }
    assert(names[a] == '\\' && names[a + 1 + b] == '\\');
    assert forall|i: int| 0 <= i < names.len() implies plain[i + 2] == #[trigger] names[i]
        && literal[i + 8] == names[i] by {}
    assert forall|i: int| 2 <= i < 2 + a implies !is_separator(#[trigger] plain[i]) by {
        assert(plain[i] == names[i - 2]);
    }
    assert forall|i: int| 3 + a <= i < 3 + a + b implies !is_separator(#[trigger] plain[i]) by {
        assert(plain[i] == names[i - 2]);
    }
    assert forall|i: int| 8 <= i < 8 + a implies !is_separator(#[trigger] literal[i]) by {
        assert(literal[i] == names[i - 8]);
    }
    assert forall|i: int| 9 + a <= i < 9 + a + b implies !is_separator(#[trigger] literal[i]) by {
        assert(literal[i] == names[i - 8]);
    }
    assert(plain[2 + a] == names[a] && plain[3 + a + b] == names[a + 1 + b]);
    assert(literal[8 + a] == names[a] && literal[9 + a + b] == names[a + 1 + b]);
    a_name_ends_at_its_separator(plain, false, 2, 2 + a);
    a_name_ends_at_its_separator(plain, false, 3 + a, 3 + a + b);
    a_name_ends_at_its_separator(literal, true, 8, 8 + a);
    a_name_ends_at_its_separator(literal, true, 9 + a, 9 + a + b);
    assert(plain[2] == server[0]) by {
        assert(plain[2] == names[0]);
    }
    assert(!is_verbatim(plain)) by {
        if plain[2] == '?' && plain[3] == '\\' {
            if a > 1 {
                assert(!is_separator(plain[3]));
            }
            assert(server =~= seq!['?']);
        }
    }
    if plain[2] == '.' && is_separator(plain[3]) {
        if a > 1 {
            assert(!is_separator(plain[3]));
        }
        assert(a == 1 && server[0] == '.');
    }
    assert(is_verbatim(literal));
}

} // verus!
