use rustproto::args::substitute_args;
use rustproto::args::ffprobe_args;
use rustproto::args::ConfigError;
use rustproto::args::INPUT_TOKEN;
use rustproto::args::OUTDIR_TOKEN;

fn strings(v: &[&str]) -> Vec<String> {
    v.iter().map(|s| String::from(*s)).collect()
}

#[test]
fn substitution_replaces_both_tokens_everywhere() {
    let args = strings(&[
        "ffmpeg",
        "-i",
        "{input}",
        "-hls_segment_filename",
        "{outdir}/seg_%05d.m4s",
        "{outdir}/playlist.m3u8",
        "from {input} to {outdir} and {input} again",
    ]);
    let out = substitute_args(&args, "myproto://7", "/tmp/scratch").unwrap();
    assert_eq!(out.len(), args.len());
    assert_eq!(out[0], "ffmpeg");
    assert_eq!(out[1], "-i");
    assert_eq!(out[2], "myproto://7");
    assert_eq!(out[3], "-hls_segment_filename");
    assert_eq!(out[4], "/tmp/scratch/seg_%05d.m4s");
    assert_eq!(out[5], "/tmp/scratch/playlist.m3u8");
    assert_eq!(
        out[6],
        "from myproto://7 to /tmp/scratch and myproto://7 again"
    );
    for arg in &out {
        assert!(!arg.contains(INPUT_TOKEN));
        assert!(!arg.contains(OUTDIR_TOKEN));
    }
}

#[test]
fn substitution_without_input_token_is_a_configuration_error() {
    let args = strings(&["ffmpeg", "-f", "null", "{outdir}"]);
    let r = substitute_args(&args, "myproto://1", "/tmp/scratch");
    assert_eq!(r.unwrap_err(), ConfigError::MissingInputPlaceholder);
}

#[test]
fn substitution_of_an_empty_argument_list_is_rejected() {
    let args: Vec<String> = Vec::new();
    let r = substitute_args(&args, "myproto://1", "/tmp/scratch");
    assert_eq!(r.unwrap_err(), ConfigError::MissingInputPlaceholder);
}

#[test]
fn substitution_keeps_token_free_arguments_as_they_are() {
    let args = strings(&["-loglevel", "error", "-i", "{input}"]);
    let out = substitute_args(&args, "myproto://2", "/tmp/x").unwrap();
    assert_eq!(out[0], "-loglevel");
    assert_eq!(out[1], "error");
    assert_eq!(out[2], "-i");
    assert_eq!(out[3], "myproto://2");
}

#[test]
fn identical_invocations_prepare_identical_arguments() {
    // The deciding half of run idempotence: for one source content and one
    // template, the prepared argument lists are byte-identical.
    let args = strings(&["ffprobe", "-of", "json", "-i", "{input}", "{outdir}/out.json"]);
    let first = substitute_args(&args, "myproto://3", "/tmp/run").unwrap();
    let second = substitute_args(&args, "myproto://3", "/tmp/run").unwrap();
    assert_eq!(first, second);
}

#[test]
fn a_run_over_a_registered_file_prepares_cleanly() {
    // The preparation half of a whole-run scenario: a local file is
    // registered, its URL lands in every argument that asked for the
    // input, and the URL resolves back to the registered source.
    let mut reg: rustproto::registry::Registry<rustproto::registry::FileSource> =
        rustproto::registry::Registry::new();
    let h = rustproto::registry::register_source(
        &mut reg,
        rustproto::registry::FileSource::new(String::from("/tmp/big_input.mp4")),
    );
    let url = h.url();
    let args = strings(&["ffmpeg", "-i", "{input}"]);
    let out = substitute_args(&args, &url, "/tmp/scratch").unwrap();
    assert_eq!(out[2], "myproto://1");
    let resolved = rustproto::bridge::resolve_source(&reg, &out[2]);
    assert_eq!(resolved.unwrap().path(), "/tmp/big_input.mp4");
}

#[test]
fn default_probe_arguments_carry_the_input_token() {
    let args = ffprobe_args();
    assert_eq!(args.len(), 14);
    assert_eq!(args[0], "ffprobe");
    assert_eq!(args[12], "-i");
    assert_eq!(args[13], "{input}");
    assert!(args.iter().any(|a| a.contains(INPUT_TOKEN)));
    // The template substitutes cleanly, so a probe run can always be
    // configured.
    let out = substitute_args(&args, "myproto://9", "/tmp/unused").unwrap();
    assert_eq!(out[13], "myproto://9");
}
