//! Which files are taken for recordings: the search patterns for a
//! directory and everything below it.
use vstd::prelude::*;
use vstd::string::StringExecFns;

verus! {

/// How many kinds of file are searched for.
pub const EXTENSION_COUNT: usize = 9;

/// The file name extensions of recordings, in the order of the search.
pub open spec fn audio_extension(k: int) -> Seq<char> {
    if k == 0 {
        "aif"@
    } else if k == 1 {
        "aiff"@
    } else if k == 2 {
        "mp3"@
    } else if k == 3 {
        "flac"@
    } else if k == 4 {
        "ogg"@
    } else if k == 5 {
        "aac"@
    } else if k == 6 {
        "m4a"@
    } else if k == 7 {
        "wma"@
    } else {
        "wav"@
    }
}

/// The pattern that matches the files with one extension in a directory
/// and in all directories below it.
pub open spec fn search_pattern(directory: Seq<char>, extension: Seq<char>) -> Seq<char> {
    directory + "/**/*."@ + extension
}

fn extension_text(k: usize) -> (text: &'static str)
    requires
        k < EXTENSION_COUNT,
    ensures
        text@ == audio_extension(k as int),
{
    if k == 0 {
        "aif"
    } else if k == 1 {
        "aiff"
    } else if k == 2 {
        "mp3"
    } else if k == 3 {
        "flac"
    } else if k == 4 {
        "ogg"
    } else if k == 5 {
        "aac"
    } else if k == 6 {
        "m4a"
    } else if k == 7 {
        "wma"
    } else {
        "wav"
    }
}

/// Writes the search patterns for `directory`, one for each extension, in
/// the order of the search.
pub fn search_patterns(directory: &str) -> (patterns: Vec<String>)
    ensures
        patterns.len() == EXTENSION_COUNT,
        forall|k: int|
            0 <= k < EXTENSION_COUNT ==> (#[trigger] patterns[k])@ == search_pattern(
                directory@,
                audio_extension(k),
            ),
{
    let mut patterns: Vec<String> = Vec::new();
    let mut k: usize = 0;
    while k < EXTENSION_COUNT
        invariant
            k <= EXTENSION_COUNT,
            patterns.len() == k,
            forall|j: int|
                0 <= j < k ==> (#[trigger] patterns[j])@ == search_pattern(
                    directory@,
                    audio_extension(j),
                ),
        decreases EXTENSION_COUNT - k,
    {
        let mut pattern = String::from_str(directory);
        pattern.append("/**/*.");
        pattern.append(extension_text(k));
        patterns.push(pattern);
        k += 1;
    }
    patterns
}

} // verus!
