//! Where the log is kept, and what is written there.

use vstd::prelude::*;

#[allow(unused_imports)]
use crate::strings::{decimal, lossy_utf8, utf16};
use crate::strings::{decimal_text, decode_utf8_lossy, encode_utf16};
use crate::tsf::settings_app::join;
#[allow(unused_imports)]
use crate::tsf::settings_app::{
    is_name, is_verbatim, joined, one_separator_stands_before_the_name,
};

verus! {

/// Where the logs are, by where applications keep what they store.
pub open spec fn log_folder_in(base: Seq<char>) -> Seq<char> {
    joined(joined(base, "Azookey"@), "logs"@)
}

/// Where the logs are, where it is known where applications store.
pub fn log_folder(base: Option<&str>) -> (folder: Option<String>)
    ensures
        match folder {
            Some(folder) => base is Some && folder@ == log_folder_in(base->0@),
            None => base is None,
        },
{
    proof {
        reveal_strlit("Azookey");
        reveal_strlit("logs");
        assert(is_name("Azookey"@));
        assert(is_name("logs"@));
    }
    match base {
        Some(base) => Some(join(&join(base, "Azookey"), "logs")),
        None => None,
    }
}

/// The name of the log of a process: it names the program that it runs, which
/// a number alone would not once the process is gone.
pub fn log_file_name(program: Option<&str>, pid: u32) -> (name: String)
    ensures
        name@ == "client-"@ + (match program {
            Some(program) => program@,
            None => "unknown"@,
        }) + "-"@ + decimal(pid as nat) + ".log"@,
{
    let mut name = "client-".to_string();
    match program {
        Some(program) => name.push_str(program),
        None => name.push_str("unknown"),
    }
    name.push_str("-");
    name.push_str(&decimal_text(pid as u64));
    name.push_str(".log");
    name
}

/// What is handed to a debugger for a line of the log: units with a zero after
/// them.
pub fn debug_output_of(line: &str) -> (units: Vec<u16>)
    ensures
        units@ == utf16("azookey: "@ + line@).push(0),
{
    let mut text = "azookey: ".to_string();
    text.push_str(line);
    let mut units = encode_utf16(&text);
    units.push(0);
    units
}

/// What is handed to a debugger for the bytes of a line of the log.
pub fn debug_output(bytes: &[u8]) -> (units: Vec<u16>)
    ensures
        units@ == utf16("azookey: "@ + lossy_utf8(bytes@)).push(0),
{
    let line = decode_utf8_lossy(bytes);
    debug_output_of(&line)
}

/// The logs are in a directory of their own within that of the application.
pub proof fn the_logs_are_with_the_application(base: Seq<char>)
    requires
        base.len() >= 4,
        !is_verbatim(base),
        base.last() != '\\',
        base.last() != '/',
    ensures
        log_folder_in(base) == base + "\\Azookey\\logs"@,
{
    reveal_strlit("Azookey");
    reveal_strlit("logs");
    reveal_strlit("\\Azookey\\logs");
    let inner = joined(base, "Azookey"@);
    one_separator_stands_before_the_name(base, "Azookey"@);
    assert(forall|i: int| 0 <= i < base.len() ==> inner[i] == #[trigger] base[i]);
    assert(inner[base.len() as int] == '\\');
    assert(inner.last() == 'y');
    assert(!is_verbatim(inner));
    one_separator_stands_before_the_name(inner, "logs"@);
    assert(log_folder_in(base) =~= base + "\\Azookey\\logs"@);
}

} // verus!
