//! Which window is that of the host that was started.

use vstd::prelude::*;

use crate::strings::{chars_of, same_text, text_of};

verus! {

/// For how long a host's window is awaited, and the focus, in milliseconds.
pub const LAUNCH_TIMEOUT: u64 = 30_000;

pub const FOCUS_TIMEOUT: u64 = 10_000;

/// A letter from A to Z in lower case; any other character as it is.
pub open spec fn ascii_lower(c: char) -> char {
    if 'A' <= c <= 'Z' {
        (c as int + 0x20) as char
    } else {
        c
    }
}

/// A text with its letters from A to Z in lower case.
pub open spec fn ascii_lowered(text: Seq<char>) -> Seq<char> {
    text.map_values(|c: char| ascii_lower(c))
}

fn lower(c: char) -> (lowered: char)
    ensures
        lowered == ascii_lower(c),
{
    if 'A' <= c && c <= 'Z' {
        let code = (c as u8) + 0x20;
        code as char
    } else {
        c
    }
}

/// A text with its letters from A to Z in lower case.
pub fn to_ascii_lowercase(text: &str) -> (lowered: String)
    ensures
        lowered@ == ascii_lowered(text@),
{
    let chars = chars_of(text);
    let mut lowered: Vec<char> = Vec::new();
    let mut i: usize = 0;
    while i < chars.len()
        invariant
            i <= chars.len(),
            lowered@ == ascii_lowered(chars@.take(i as int)),
        decreases chars.len() - i,
    {
        lowered.push(lower(chars[i]));
        i += 1;
        assert(lowered@ =~= ascii_lowered(chars@.take(i as int)));
    }
    assert(chars@.take(chars@.len() as int) =~= chars@);
    text_of(&lowered)
}

/// A window on the screen.
#[derive(Debug)]
pub struct Window {
    pub handle: isize,
    pub visible: bool,
    pub title: String,
    /// The name, in lower case, of the program that its process runs.
    pub image: Option<String>,
}

impl Window {
    /// Whether a program works in this window: it is visible, has a title, and
    /// is the program's.
    pub open spec fn is_document(self, image: Seq<char>) -> bool {
        self.visible && self.title@.len() > 0 && self.image is Some && self.image->0@
            == ascii_lowered(image)
    }
}

/// The windows in which a program works.
pub open spec fn documents(windows: Seq<Window>, image: Seq<char>) -> Seq<isize>
    decreases windows.len(),
{
    if windows.len() == 0 {
        Seq::empty()
    } else if windows.last().is_document(image) {
        documents(windows.drop_last(), image).push(windows.last().handle)
    } else {
        documents(windows.drop_last(), image)
    }
}

/// The windows in which a program works.
pub fn windows_of_image(windows: &[Window], image: &str) -> (found: Vec<isize>)
    ensures
        found@ == documents(windows@, image@),
{
    let wanted = to_ascii_lowercase(image);
    let mut found: Vec<isize> = Vec::new();
    let mut i: usize = 0;
    while i < windows.len()
        invariant
            i <= windows.len(),
            wanted@ == ascii_lowered(image@),
            found@ == documents(windows@.take(i as int), image@),
        decreases windows.len() - i,
    {
        let window = &windows[i];
        let owned = match &window.image {
            Some(image) => same_text(image, &wanted),
            None => false,
        };
        assert(windows@.take(i + 1).drop_last() =~= windows@.take(i as int));
        if window.visible && chars_of(&window.title).len() > 0 && owned {
            found.push(window.handle);
        }
        i += 1;
    }
    assert(windows@.take(windows@.len() as int) =~= windows@);
    found
}

/// The first window that was not there before.
pub open spec fn first_new(before: Seq<isize>, now: Seq<isize>) -> Option<isize>
    decreases now.len(),
{
    if now.len() == 0 {
        None
    } else if !before.contains(now[0]) {
        Some(now[0])
    } else {
        first_new(before, now.skip(1))
    }
}

/// The window of a program that was started: the first that was not there
/// before.
pub fn new_window(before: &[isize], now: &[isize]) -> (window: Option<isize>)
    ensures
        window == first_new(before@, now@),
{
    let mut i: usize = 0;
    assert(now@.skip(0) =~= now@);
    while i < now.len()
        invariant
            i <= now.len(),
            first_new(before@, now@.skip(i as int)) == first_new(before@, now@),
        decreases now.len() - i,
    {
        let mut known = false;
        let mut j: usize = 0;
        while j < before.len() && !known
            invariant
                j <= before.len(),
                i < now.len(),
                known ==> before@.contains(now@[i as int]),
                !known ==> forall|k: int| 0 <= k < j ==> #[trigger] before@[k] != now@[i as int],
            decreases before.len() - j + if known {
                0int
            } else {
                1int
            },
        {
            if before[j] == now[i] {
                known = true;
            } else {
                j += 1;
            }
        }
        assert(now@.skip(i as int)[0] == now@[i as int]);
        assert(now@.skip(i as int).skip(1) =~= now@.skip(i + 1));
        if !known {
            return Some(now[i]);
        }
        i += 1;
    }
    assert(now@.skip(i as int) =~= Seq::empty());
    None
}

/// A window that is taken for the program's was not there before, so it is not
/// one that runs under another input method.
pub proof fn a_host_is_always_fresh(before: Seq<isize>, now: Seq<isize>)
    ensures
        match first_new(before, now) {
            Some(window) => now.contains(window) && !before.contains(window),
            None => forall|i: int| 0 <= i < now.len() ==> before.contains(#[trigger] now[i]),
        },
    decreases now.len(),
{
    if now.len() > 0 {
        assert(now.contains(now[0]));
        if before.contains(now[0]) {
            a_host_is_always_fresh(before, now.skip(1));
            match first_new(before, now.skip(1)) {
                Some(window) => {
                    let i = choose|i: int| 0 <= i < now.skip(1).len() && now.skip(1)[i] == window;
                    assert(now[i + 1] == window);
                },
                None => {
                    assert forall|i: int| 0 <= i < now.len() implies before.contains(
                        #[trigger] now[i],
                    ) by {
                        if i > 0 {
                            assert(now.skip(1)[i - 1] == now[i]);
                        }
                    }
                },
            }
        }
    }
}

/// Exactly the windows that a program works in are listed: those that are
/// visible, have a title and are the program's, in any spelling of its name.
pub proof fn a_window_is_listed_where_the_program_works_in_it(
    windows: Seq<Window>,
    image: Seq<char>,
    handle: isize,
)
    ensures
        documents(windows, image).contains(handle) <==> exists|i: int|
            0 <= i < windows.len() && (#[trigger] windows[i]).handle == handle && windows[i].visible
                && windows[i].title@.len() > 0 && windows[i].image is Some && windows[i].image->0@
                == ascii_lowered(image),
    decreases windows.len(),
{
    if windows.len() > 0 {
        let before = windows.drop_last();
        let last = windows.last();
        a_window_is_listed_where_the_program_works_in_it(before, image, handle);
        let listed = documents(windows, image);
        let earlier = documents(before, image);
        if earlier.contains(handle) {
            let at = choose|at: int| 0 <= at < earlier.len() && earlier[at] == handle;
            assert(listed[at] == handle);
            let i = choose|i: int|
                0 <= i < before.len() && (#[trigger] before[i]).handle == handle
                    && before[i].visible && before[i].title@.len() > 0 && before[i].image is Some
                    && before[i].image->0@ == ascii_lowered(image);
            assert(windows[i].handle == handle);
        }
        if last.is_document(image) && last.handle == handle {
            assert(listed.last() == handle);
            assert(windows[windows.len() - 1].handle == handle);
        }
        if listed.contains(handle) && !earlier.contains(handle) {
            let at = choose|at: int| 0 <= at < listed.len() && listed[at] == handle;
            assert(at == earlier.len());
        }
        if exists|i: int|
            0 <= i < windows.len() && (#[trigger] windows[i]).handle == handle && windows[i].visible
                && windows[i].title@.len() > 0 && windows[i].image is Some && windows[i].image->0@
                == ascii_lowered(image) {
            let i = choose|i: int|
                0 <= i < windows.len() && (#[trigger] windows[i]).handle == handle
                    && windows[i].visible && windows[i].title@.len() > 0 && windows[i].image is Some
                    && windows[i].image->0@ == ascii_lowered(image);
            if i < before.len() {
                assert(before[i].handle == handle);
            }
        }
    }
}

/// The spelling of a name in capitals or small letters does not matter, and only
/// the letters from A to Z are spelled anew.
pub proof fn lower_case_is_a_fixed_distance_away(c: char)
    ensures
        0x41 <= c as int <= 0x5A ==> ascii_lower(c) as int == c as int + 0x20,
        (c as int) < 0x41 || c as int > 0x5A ==> ascii_lower(c) == c,
        ascii_lower(ascii_lower(c)) == ascii_lower(c),
{
}

} // verus!
