//! Computations around one download attempt: the destination directory path,
//! the fixed argument template for the external tool, the recording of the
//! worker's terminal outcome, and the filtering of the result files the tool
//! leaves behind.
use vstd::prelude::*;
use vstd::string::StringExecFns;
use crate::progress::ProgressChannel;

verus! {

/// Relies on `core::iter::Iterator::collect` for `String`: collecting
/// characters yields the string of exactly those characters, in order.
#[verifier::external_body]
fn chars_to_string(v: &Vec<char>) -> (r: String)
    ensures
        r@ == v@,
{
    v.iter().collect()
}

/// The destination directory for a download attempt: `<home>/Music/<name>`.
pub fn music_dir_path(home: &str, name: &Vec<char>) -> (r: String)
    ensures
        r@ == home@ + "/Music/"@ + name@,
{
    let n = chars_to_string(name);
    home.to_owned().concat("/Music/").concat(n.as_str())
}

/// The fixed argument template handed to the external tool: audio-only
/// format selection, audio extraction, thumbnail and metadata embedding,
/// thumbnail conversion, the output path template under `dir`, and the URL,
/// in this order.
pub fn build_args(dir: &str, url: &str) -> (r: Vec<String>)
    ensures
        r@.len() == 10,
        r@[0]@ == "-f"@,
        r@[1]@ == "ba[ext=m4a]"@,
        r@[2]@ == "--extract-audio"@,
        r@[3]@ == "--embed-thumbnail"@,
        r@[4]@ == "--add-metadata"@,
        r@[5]@ == "--convert-thumbnails"@,
        r@[6]@ == "jpg"@,
        r@[7]@ == "--output"@,
        r@[8]@ == dir@ + "/%(title)s.%(ext)s"@,
        r@[9]@ == url@,
{
    let mut r: Vec<String> = Vec::new();
    r.push("-f".to_owned());
    r.push("ba[ext=m4a]".to_owned());
    r.push("--extract-audio".to_owned());
    r.push("--embed-thumbnail".to_owned());
    r.push("--add-metadata".to_owned());
    r.push("--convert-thumbnails".to_owned());
    r.push("jpg".to_owned());
    r.push("--output".to_owned());
    r.push(dir.to_owned().concat("/%(title)s.%(ext)s"));
    r.push(url.to_owned());
    r
}

/// How one download attempt ended: the external process ran to completion
/// with the given exit verdict, or it could not be spawned at all and the
/// given diagnostic line describes why.
pub enum DownloadOutcome {
    Completed { exit_success: bool },
    SpawnFailed { message: String },
}

/// The worker's final action: publish the outcome on the channel, exactly
/// once, after all output lines. A spawn failure first records its
/// diagnostic line; only a completed process with a successful exit counts
/// as success.
pub fn record_outcome(ch: &mut ProgressChannel, outcome: &DownloadOutcome)
    requires
        old(ch).wf(),
    ensures
        final(ch).wf(),
        final(ch)@.done,
        final(ch)@.succeeded == (outcome matches DownloadOutcome::Completed {
            exit_success: true,
        }),
        match outcome {
            DownloadOutcome::Completed { .. } => final(ch)@.lines == old(ch)@.lines,
            DownloadOutcome::SpawnFailed { message } => final(ch)@.lines == old(ch)@.lines.push(
                message@,
            ),
        },
{
    match outcome {
        DownloadOutcome::Completed { exit_success } => {
            ch.mark_done(*exit_success);
        },
        DownloadOutcome::SpawnFailed { message } => {
            ch.append(message.as_str());
            ch.mark_done(false);
        },
    }
}

/// A file name with the expected audio container's extension: it ends in
/// `.m4a` and has at least one character of stem before the dot.
pub open spec fn is_m4a(name: Seq<char>) -> bool {
    &&& name.len() >= 5
    &&& name[name.len() - 4] == '.'
    &&& name[name.len() - 3] == 'm'
    &&& name[name.len() - 2] == '4'
    &&& name[name.len() - 1] == 'a'
}

/// Whether one file name carries the expected audio extension.
pub fn has_m4a_extension(name: &str) -> (r: bool)
    ensures
        r == is_m4a(name@),
{
    let n = name.unicode_len();
    if n < 5 {
        return false;
    }
    name.get_char(n - 4) == '.' && name.get_char(n - 3) == 'm' && name.get_char(n - 2) == '4'
        && name.get_char(n - 1) == 'a'
}

/// The directory entries that count as results: exactly the names with the
/// expected audio extension, kept in enumeration order.
pub fn filter_m4a(names: Vec<String>) -> (r: Vec<String>)
    ensures
        r@.map_values(|s: String| s@) == names@.map_values(|s: String| s@).filter(
            |n: Seq<char>| is_m4a(n),
        ),
{
    let ghost viewed = names@.map_values(|s: String| s@);
    let mut r: Vec<String> = Vec::new();
    let mut i: usize = 0;
    while i < names.len()
        invariant
            i <= names@.len(),
            viewed == names@.map_values(|s: String| s@),
            r@.map_values(|s: String| s@) == viewed.take(i as int).filter(
                |n: Seq<char>| is_m4a(n),
            ),
        decreases names@.len() - i,
    {
        let keep = has_m4a_extension(names[i].as_str());
        proof {
            reveal(Seq::filter);
            assert(viewed.take(i + 1).drop_last() =~= viewed.take(i as int));
            assert(viewed.take(i + 1).last() == names@[i as int]@);
        }
        if keep {
            r.push(names[i].clone());
            proof {
                assert(r@.map_values(|s: String| s@) =~= r@.drop_last().map_values(
                    |s: String| s@,
                ).push(names@[i as int]@));
            }
        }
        i = i + 1;
    }
    proof {
        assert(viewed.take(names@.len() as int) =~= viewed);
    }
    r
}

/// The last `n` lines of the split-up output, in order: what the progress
/// pane shows while the download runs.
pub fn tail_lines(lines: &Vec<String>, n: usize) -> (r: Vec<String>)
    ensures
        r@ == lines@.skip(if lines@.len() <= n {
            0
        } else {
            lines@.len() - n
        }),
{
    let start: usize = if lines.len() <= n {
        0
    } else {
        lines.len() - n
    };
    let mut r: Vec<String> = Vec::new();
    let mut i: usize = start;
    while i < lines.len()
        invariant
            start <= i <= lines@.len(),
            r@ == lines@.subrange(start as int, i as int),
        decreases lines@.len() - i,
    {
        r.push(lines[i].clone());
        proof {
            assert(r@ =~= lines@.subrange(start as int, i + 1));
        }
        i = i + 1;
    }
    proof {
        assert(lines@.subrange(start as int, lines@.len() as int) =~= lines@.skip(
            start as int,
        ));
    }
    r
}

/// Which animation glyph a tick shows: the frame counter wrapped to the
/// glyph table's length.
pub fn spinner_index(frame: u32, count: usize) -> (i: usize)
    requires
        count > 0,
    ensures
        i == frame as int % count as int,
{
    (frame as usize) % count
}

} // verus!
