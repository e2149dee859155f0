//! Placeholder substitution for run arguments: the input token is
//! replaced by the synthetic URL of the registered source, the output
//! token by the scratch directory's path, across every argument
//! independently. An argument list without the input token is rejected
//! before anything is spawned.

use vstd::prelude::*;

verus! {

use vstd::string::StringExecFns;

use crate::text::contains_pat;
use crate::text::lemma_replace_monotone;
use crate::text::lemma_replace_removes;
use crate::text::replace_all;
use crate::text::seq_lacks;
use crate::text::spec_contains;
use crate::text::spec_replace;

/// The placeholder for the synthetic input URL; it must appear in at
/// least one argument.
pub const INPUT_TOKEN: &'static str = "{input}";

/// The placeholder for the scratch output directory; it may appear any
/// number of times, or not at all.
pub const OUTDIR_TOKEN: &'static str = "{outdir}";

/// The input placeholder as a character sequence.
pub open spec fn input_token() -> Seq<char> {
    seq!['{', 'i', 'n', 'p', 'u', 't', '}']
}

/// The output-directory placeholder as a character sequence.
pub open spec fn outdir_token() -> Seq<char> {
    seq!['{', 'o', 'u', 't', 'd', 'i', 'r', '}']
}

/// A run invocation rejected before any resource was spawned.
#[derive(Debug, PartialEq, Eq, Structural, Clone, Copy)]
pub enum ConfigError {
    /// No argument contains the input placeholder, so the engine could
    /// never be pointed at the registered source.
    MissingInputPlaceholder,
}

/// One argument after substitution: first every input token becomes the
/// URL, then every output token becomes the directory path.
pub open spec fn spec_substitute(arg: Seq<char>, url: Seq<char>, outdir: Seq<char>) -> Seq<char> {
    spec_replace(spec_replace(arg, input_token(), url), outdir_token(), outdir)
}

/// Substitute both placeholders in every argument, in order. Fails — and
/// this is the only failure — when no argument contains the input token.
pub fn substitute_args(args: &Vec<String>, url: &str, outdir: &str) -> (r: Result<
    Vec<String>,
    ConfigError,
>)
    ensures
        match r {
            Ok(out) => {
                &&& out@.len() == args@.len()
                &&& forall|i: int|
                    0 <= i < args@.len() ==> out@[i]@ == spec_substitute(
                        args@[i]@,
                        url@,
                        outdir@,
                    )
                &&& exists|i: int| 0 <= i < args@.len() && spec_contains(args@[i]@, input_token())
            },
            Err(e) => {
                &&& e == ConfigError::MissingInputPlaceholder
                &&& forall|i: int| 0 <= i < args@.len() ==> !spec_contains(args@[i]@, input_token())
            },
        },
{
    proof {
        reveal_strlit("{input}");
        reveal_strlit("{outdir}");
        assert(INPUT_TOKEN@ =~= input_token());
        assert(OUTDIR_TOKEN@ =~= outdir_token());
    }
    let mut out: Vec<String> = Vec::new();
    let mut saw_input = false;
    let n = args.len();
    let mut i: usize = 0;
    while i < n
        invariant
            n == args@.len(),
            0 <= i <= n,
            out@.len() == i,
            INPUT_TOKEN@ == input_token(),
            OUTDIR_TOKEN@ == outdir_token(),
            forall|k: int|
                0 <= k < i ==> out@[k]@ == spec_substitute(args@[k]@, url@, outdir@),
            saw_input == exists|k: int| 0 <= k < i && spec_contains(args@[k]@, input_token()),
        decreases n - i,
    {
        let arg = &args[i];
        if contains_pat(arg.as_str(), INPUT_TOKEN) {
            saw_input = true;
        }
        let first = replace_all(arg.as_str(), INPUT_TOKEN, url);
        let second = replace_all(first.as_str(), OUTDIR_TOKEN, outdir);
        out.push(second);
        i += 1;
    }
    if !saw_input {
        return Err(ConfigError::MissingInputPlaceholder);
    }
    Ok(out)
}

/// Neither brace character occurs in `s`, so no placeholder token can
/// start or end inside it.
pub open spec fn brace_free(s: Seq<char>) -> bool {
    seq_lacks(s, '{') && seq_lacks(s, '}')
}

/// Substitution is total: once both placeholders have been replaced,
/// neither token occurs in the result — for replacement values in which
/// no token can hide or complete itself. A synthetic URL is brace-free
/// and longer than either token, so it satisfies all of this; a scratch
/// directory path does unless it is itself a piece of a token (a
/// relative path spelled exactly `outdir` would be one).
pub proof fn lemma_substitution_total(arg: Seq<char>, url: Seq<char>, outdir: Seq<char>)
    requires
        brace_free(url),
        brace_free(outdir),
        !spec_contains(input_token(), url),
        !spec_contains(input_token(), outdir),
        !spec_contains(outdir_token(), outdir),
    ensures
        !spec_contains(spec_substitute(arg, url, outdir), input_token()),
        !spec_contains(spec_substitute(arg, url, outdir), outdir_token()),
{
    let r1 = spec_replace(arg, input_token(), url);
    let r2 = spec_replace(r1, outdir_token(), outdir);
    lemma_replace_removes(arg, input_token(), url);
    lemma_replace_removes(r1, outdir_token(), outdir);
    if spec_contains(r2, input_token()) {
        lemma_replace_monotone(r1, outdir_token(), outdir, input_token());
    }
}

/// The fixed argument template of an introspection run: JSON output with
/// format and stream records, reading from the input placeholder.
pub fn ffprobe_args() -> (r: Vec<String>)
    ensures
        r@.len() == 14,
        r@[0]@ == "ffprobe"@,
        r@[1]@ == "-hide_banner"@,
        r@[2]@ == "-loglevel"@,
        r@[3]@ == "error"@,
        r@[4]@ == "-show_optional_fields"@,
        r@[5]@ == "always"@,
        r@[6]@ == "-of"@,
        r@[7]@ == "json"@,
        r@[8]@ == "-show_format"@,
        r@[9]@ == "-show_streams"@,
        r@[10]@ == "-print_filename"@,
        r@[11]@ == "input"@,
        r@[12]@ == "-i"@,
        r@[13]@ == "{input}"@,
        spec_contains(r@[13]@, input_token()),
{
    let mut v: Vec<String> = Vec::new();
    v.push(String::from_str("ffprobe"));
    v.push(String::from_str("-hide_banner"));
    v.push(String::from_str("-loglevel"));
    v.push(String::from_str("error"));
    v.push(String::from_str("-show_optional_fields"));
    v.push(String::from_str("always"));
    v.push(String::from_str("-of"));
    v.push(String::from_str("json"));
    v.push(String::from_str("-show_format"));
    v.push(String::from_str("-show_streams"));
    v.push(String::from_str("-print_filename"));
    v.push(String::from_str("input"));
    v.push(String::from_str("-i"));
    v.push(String::from_str("{input}"));
    proof {
        reveal_strlit("{input}");
        assert(v@[13]@.subrange(0, 7) =~= input_token());
        assert(crate::text::match_at(v@[13]@, input_token(), 0));
    }
    v
}

} // verus!
