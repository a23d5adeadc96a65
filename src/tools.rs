//! The two external command-line tools: which one decodes, the command
//! lines they are run with, how their exit status is reported, and the loop
//! points read from the probing tool's metadata.
use vstd::prelude::*;
use vstd::string::*;
use vstd::utf8::{decode_utf8, valid_utf8};
use crate::text::{decimal_digits, i32_text, joined, signed_decimal, usize_text, utf8_text};

verus! {

/// Where the external tools are and which one decodes by preference.
pub struct ToolConfig {
    /// Path of the codec tool (VGAudioCli); empty where it is not set up.
    pub vgaudio_cli_path: String,
    /// Program that runs the codec tool, such as a .NET runtime; empty where
    /// the tool runs by itself.
    pub vgaudio_cli_prepath: String,
    /// Path of the probing tool (vgmstream); empty where it is not set up.
    pub vgmstream_path: String,
    /// Whether the probing tool decodes when both tools are set up.
    pub prefer_vgmstream_decode: bool,
}

/// The tool that turns container audio into WAV.
#[derive(Clone, Copy, PartialEq, Eq, Structural, Debug)]
pub enum DecodeTool {
    Vgmstream,
    VgaudioCli,
}

/// The decoding tool: the preferred one where it is set up, else the other
/// where that one is.
pub open spec fn decode_tool_spec(config: ToolConfig) -> Option<DecodeTool> {
    let codec_set = config.vgaudio_cli_path@.len() > 0;
    let probe_set = config.vgmstream_path@.len() > 0;
    if config.prefer_vgmstream_decode {
        if probe_set {
            Some(DecodeTool::Vgmstream)
        } else if codec_set {
            Some(DecodeTool::VgaudioCli)
        } else {
            None
        }
    } else {
        if codec_set {
            Some(DecodeTool::VgaudioCli)
        } else if probe_set {
            Some(DecodeTool::Vgmstream)
        } else {
            None
        }
    }
}

/// Chooses the tool that decodes container audio; an error names the path
/// that is missing where neither tool is set up.
pub fn decode_tool(config: &ToolConfig) -> (r: Result<DecodeTool, String>)
    ensures
        r is Ok <==> decode_tool_spec(*config) is Some,
        r is Ok ==> decode_tool_spec(*config) == Some(r->Ok_0),
{
    let codec_set = config.vgaudio_cli_path.as_str().unicode_len() > 0;
    let probe_set = config.vgmstream_path.as_str().unicode_len() > 0;
    if config.prefer_vgmstream_decode {
        if probe_set {
            Ok(DecodeTool::Vgmstream)
        } else if codec_set {
            Ok(DecodeTool::VgaudioCli)
        } else {
            Err(String::from_str("VGAudioCli path is empty"))
        }
    } else {
        if codec_set {
            Ok(DecodeTool::VgaudioCli)
        } else if probe_set {
            Ok(DecodeTool::Vgmstream)
        } else {
            Err(String::from_str("vgmstream path is empty"))
        }
    }
}

/// A program and its arguments, run without a shell.
pub struct ToolCommand {
    pub program: String,
    pub args: Vec<String>,
}

/// The texts of a list of arguments.
pub open spec fn texts(args: Seq<String>) -> Seq<Seq<char>> {
    args.map_values(|a: String| a@)
}

impl ToolCommand {
    /// The texts of the arguments.
    pub open spec fn arg_texts(&self) -> Seq<Seq<char>> {
        texts(self.args@)
    }
}

/// Appends an argument.
fn push_arg(args: &mut Vec<String>, a: String)
    ensures
        texts(final(args)@) == texts(old(args)@).push(a@),
{
    let ghost before = args@;
    args.push(a);
    assert(texts(args@) =~= texts(before).push(a@));
}

/// Arguments that hand loop points to the codec tool, in the namco opus
/// header with constant bit rate.
pub open spec fn loop_args(loop_points: Option<(usize, usize)>) -> Seq<Seq<char>> {
    match loop_points {
        Some((from, to)) => seq![
            "-l"@,
            decimal_digits(from as nat) + "-"@ + decimal_digits(to as nat),
            "--cbr"@,
            "--opusheader"@,
            "namco"@,
        ],
        None => seq![],
    }
}

/// The codec tool's command line converting `src` to `dest`, the format
/// of each being told by its file extension.
pub open spec fn codec_command_spec(
    config: ToolConfig,
    src: Seq<char>,
    dest: Seq<char>,
    loop_points: Option<(usize, usize)>,
) -> (Seq<char>, Seq<Seq<char>>) {
    let prepath = config.vgaudio_cli_prepath@;
    let path = config.vgaudio_cli_path@;
    let tail = seq!["-c"@, src, dest] + loop_args(loop_points);
    if prepath.len() > 0 {
        (prepath, seq![path] + tail)
    } else {
        (path, tail)
    }
}

/// Builds the codec tool's command converting `src` to `dest`, with loop
/// arguments where loop points are given; an empty tool path is an error.
pub fn vgaudio_cli_command(
    config: &ToolConfig,
    src: &str,
    dest: &str,
    loop_points: Option<(usize, usize)>,
) -> (r: Result<ToolCommand, String>)
    ensures
        r is Err <==> config.vgaudio_cli_path@.len() == 0,
        r is Ok ==> (r->Ok_0.program@, r->Ok_0.arg_texts()) == codec_command_spec(
            *config,
            src@,
            dest@,
            loop_points,
        ),
{
    if config.vgaudio_cli_path.as_str().unicode_len() == 0 {
        return Err(String::from_str("VGAudioCli path is empty"));
    }
    let mut args: Vec<String> = Vec::new();
    let program;
    if config.vgaudio_cli_prepath.as_str().unicode_len() > 0 {
        program = String::from_str(config.vgaudio_cli_prepath.as_str());
        push_arg(&mut args, String::from_str(config.vgaudio_cli_path.as_str()));
    } else {
        program = String::from_str(config.vgaudio_cli_path.as_str());
    }
    let ghost head = texts(args@);
    push_arg(&mut args, String::from_str("-c"));
    push_arg(&mut args, String::from_str(src));
    push_arg(&mut args, String::from_str(dest));
    match loop_points {
        Some((from, to)) => {
            push_arg(&mut args, String::from_str("-l"));
            let f = usize_text(from);
            let t = usize_text(to);
            let f_dash = joined(f.as_str(), "-");
            push_arg(&mut args, joined(f_dash.as_str(), t.as_str()));
            push_arg(&mut args, String::from_str("--cbr"));
            push_arg(&mut args, String::from_str("--opusheader"));
            push_arg(&mut args, String::from_str("namco"));
        },
        None => {},
    }
    proof {
        let tail = seq!["-c"@, src@, dest@] + loop_args(loop_points);
        assert(texts(args@) =~= head + tail);
        if config.vgaudio_cli_prepath@.len() > 0 {
            assert(head =~= seq![config.vgaudio_cli_path@]);
        } else {
            assert(head =~= Seq::<Seq<char>>::empty());
        }
    }
    Ok(ToolCommand { program, args })
}

/// The probing tool's command line that decodes `src` to WAV on its
/// standard output.
pub open spec fn probe_decode_spec(config: ToolConfig, src: Seq<char>) -> (Seq<char>, Seq<Seq<char>>) {
    (config.vgmstream_path@, seq!["-p"@, src])
}

/// The probing tool's command line that prints the metadata of `src` as
/// JSON without decoding it.
pub open spec fn probe_metadata_spec(config: ToolConfig, src: Seq<char>) -> (Seq<char>, Seq<Seq<char>>) {
    (config.vgmstream_path@, seq!["-mI"@, src])
}

/// Builds the probing tool's command with one option before the file.
fn probe_command(config: &ToolConfig, option: &str, src: &str) -> (r: Result<ToolCommand, String>)
    ensures
        r is Err <==> config.vgmstream_path@.len() == 0,
        r is Ok ==> r->Ok_0.program@ == config.vgmstream_path@ && r->Ok_0.arg_texts() == seq![
            option@,
            src@,
        ],
{
    if config.vgmstream_path.as_str().unicode_len() == 0 {
        return Err(String::from_str("vgmstream path is empty"));
    }
    let mut args: Vec<String> = Vec::new();
    push_arg(&mut args, String::from_str(option));
    push_arg(&mut args, String::from_str(src));
    proof {
        assert(texts(args@) =~= seq![option@, src@]);
    }
    Ok(ToolCommand { program: String::from_str(config.vgmstream_path.as_str()), args })
}

/// Builds the probing tool's command that decodes `src` to WAV on its
/// standard output; an empty tool path is an error.
pub fn vgmstream_decode_command(config: &ToolConfig, src: &str) -> (r: Result<ToolCommand, String>)
    ensures
        r is Err <==> config.vgmstream_path@.len() == 0,
        r is Ok ==> (r->Ok_0.program@, r->Ok_0.arg_texts()) == probe_decode_spec(*config, src@),
{
    probe_command(config, "-p", src)
}

/// Builds the probing tool's command that prints the metadata of `src`
/// as JSON; an empty tool path is an error.
pub fn vgmstream_metadata_command(config: &ToolConfig, src: &str) -> (r: Result<
    ToolCommand,
    String,
>)
    ensures
        r is Err <==> config.vgmstream_path@.len() == 0,
        r is Ok ==> (r->Ok_0.program@, r->Ok_0.arg_texts()) == probe_metadata_spec(*config, src@),
{
    probe_command(config, "-mI", src)
}

/// How one captured stream is reported: its text, or that it is empty or
/// not text, followed by `trailer`.
pub open spec fn stream_report(label: Seq<char>, bytes: Seq<u8>, trailer: Seq<char>) -> Seq<char> {
    if !valid_utf8(bytes) {
        label + " couldn't be read"@ + trailer
    } else if decode_utf8(bytes).len() == 0 {
        label + " is empty"@ + trailer
    } else {
        label + " is:\n"@ + decode_utf8(bytes) + trailer
    }
}

/// The report of a tool that exited with a code other than zero.
pub open spec fn exit_report(tool: Seq<char>, code: i32, stdout: Seq<u8>, stderr: Seq<u8>) -> Seq<
    char,
> {
    "Attempted running "@ + tool + ", found exit code "@ + signed_decimal(code as int) + "\n"@
        + stream_report("stdout"@, stdout, "\n"@) + stream_report("stderr"@, stderr, ""@)
}

/// The report of a tool that ended without an exit code.
pub open spec fn no_exit_report(tool: Seq<char>) -> Seq<char> {
    "Attempted running "@ + tool + ", didn't get any exit code"@
}

/// Reports one captured stream.
fn report_stream(label: &str, bytes: &[u8], trailer: &str) -> (r: String)
    ensures
        r@ == stream_report(label@, bytes@, trailer@),
{
    match utf8_text(bytes) {
        None => {
            let s = joined(label, " couldn't be read");
            joined(s.as_str(), trailer)
        },
        Some(text) => {
            if text.as_str().unicode_len() == 0 {
                let s = joined(label, " is empty");
                joined(s.as_str(), trailer)
            } else {
                let s = joined(label, " is:\n");
                let s = joined(s.as_str(), text.as_str());
                joined(s.as_str(), trailer)
            }
        },
    }
}

/// Interprets how `tool` ended: success on exit code zero; otherwise an
/// error that gives the code and both captured streams, or says that no
/// exit code came (the process was ended from outside).
pub fn check_exit(tool: &str, code: Option<i32>, stdout: &[u8], stderr: &[u8]) -> (r: Result<
    (),
    String,
>)
    ensures
        r is Ok <==> code == Some(0i32),
        code is None ==> r is Err && r->Err_0@ == no_exit_report(tool@),
        code is Some && code->Some_0 != 0 ==> r is Err && r->Err_0@ == exit_report(
            tool@,
            code->Some_0,
            stdout@,
            stderr@,
        ),
{
    match code {
        None => {
            let s = joined("Attempted running ", tool);
            Err(joined(s.as_str(), ", didn't get any exit code"))
        },
        Some(c) => {
            if c == 0 {
                return Ok(());
            }
            let s = joined("Attempted running ", tool);
            let s = joined(s.as_str(), ", found exit code ");
            let number = i32_text(c);
            let s = joined(s.as_str(), number.as_str());
            let s = joined(s.as_str(), "\n");
            let out = report_stream("stdout", stdout, "\n");
            let s = joined(s.as_str(), out.as_str());
            let err = report_stream("stderr", stderr, "");
            Err(joined(s.as_str(), err.as_str()))
        },
    }
}

/// What the logic reads of one member of a JSON object: whether it is an
/// object itself, and two of its own members as unsigned integers.
#[derive(Debug)]
pub struct MemberFields {
    pub is_object: bool,
    pub first: Option<usize>,
    pub second: Option<usize>,
}

/// Longest text, in characters, that is handed to the JSON parser.
pub open spec fn json_text_limit() -> int {
    8192
}

/// What json reads from `text`: for its member `outer`, whether that is an
/// object, and its members `first` and `second` as `usize`; `None` where
/// the text is not JSON.
pub uninterp spec fn json_member_fields(
    text: Seq<char>,
    outer: Seq<char>,
    first: Seq<char>,
    second: Seq<char>,
) -> Option<(bool, Option<usize>, Option<usize>)>;

/// Relies on `json::parse`, `JsonValue`'s `Index<&str>` (null for a missing
/// member or a value that is no object), `JsonValue::is_object` and
/// `JsonValue::as_usize`: the outcome depends on the arguments alone, and a
/// parse error gives the parser's message. The parser lowers an `i16`
/// exponent once per fraction digit, which overflows past 32768 bytes of
/// text; 8192 characters take at most 32768 bytes.
#[verifier::external_body]
fn read_member_fields(text: &str, outer: &str, first: &str, second: &str) -> (r: Result<
    MemberFields,
    String,
>)
    requires
        text@.len() <= json_text_limit(),
    ensures
        r is Ok <==> json_member_fields(text@, outer@, first@, second@) is Some,
        r matches Ok(f) ==> json_member_fields(text@, outer@, first@, second@) == Some(
            (f.is_object, f.first, f.second),
        ),
{
    match json::parse(text) {
        Ok(value) => {
            let member = &value[outer];
            Ok(MemberFields {
                is_object: member.is_object(),
                first: member[first].as_usize(),
                second: member[second].as_usize(),
            })
        },
        Err(error) => Err(error.to_string()),
    }
}

/// Loop points from the metadata's start and end fields: both must be
/// present, and the end must lie after the start.
pub open spec fn loop_points_from_fields_spec(start: Option<usize>, end: Option<usize>) -> Option<
    (usize, usize),
> {
    match (start, end) {
        (Some(s), Some(e)) => if e > s {
            Some((s, e))
        } else {
            None
        },
        _ => None,
    }
}

/// Loop points from the metadata's start and end fields, where both are
/// present and the end lies after the start.
pub fn loop_points_from_fields(start: Option<usize>, end: Option<usize>) -> (r: Option<
    (usize, usize),
>)
    ensures
        r == loop_points_from_fields_spec(start, end),
{
    match (start, end) {
        (Some(s), Some(e)) => if e > s {
            Some((s, e))
        } else {
            None
        },
        _ => None,
    }
}

/// The loop fields of the probing tool's metadata output: its
/// `loopingInfo` member, and that member's `start` and `end`; `None` where
/// the output is not UTF-8 text, longer than the parser takes, or not JSON.
pub open spec fn metadata_fields(stdout: Seq<u8>) -> Option<(bool, Option<usize>, Option<usize>)> {
    if valid_utf8(stdout) && decode_utf8(stdout).len() <= json_text_limit() {
        json_member_fields(decode_utf8(stdout), "loopingInfo"@, "start"@, "end"@)
    } else {
        None
    }
}

/// Loop points from the loop fields of the metadata: `loopingInfo` must be
/// an object with both fields, and the end must lie after the start.
pub open spec fn loop_points_of_fields_spec(fields: (bool, Option<usize>, Option<usize>)) -> Option<
    (usize, usize),
> {
    if fields.0 {
        loop_points_from_fields_spec(fields.1, fields.2)
    } else {
        None
    }
}

/// Loop points from the loop fields of the metadata.
pub fn loop_points_of_fields(fields: &MemberFields) -> (r: Option<(usize, usize)>)
    ensures
        r == loop_points_of_fields_spec((fields.is_object, fields.first, fields.second)),
{
    if !fields.is_object {
        return None;
    }
    loop_points_from_fields(fields.first, fields.second)
}

/// Reads the loop fields of the probing tool's metadata output: text, then
/// JSON; each failure is reported on its own.
pub fn parse_metadata(stdout: &[u8]) -> (r: Result<MemberFields, String>)
    ensures
        r is Ok <==> metadata_fields(stdout@) is Some,
        r matches Ok(f) ==> metadata_fields(stdout@) == Some((f.is_object, f.first, f.second)),
        !valid_utf8(stdout@) ==> r is Err && r->Err_0@
            == "Error reading vgmstream output\nthe output is not UTF-8"@,
        valid_utf8(stdout@) && r is Err ==> "Error parsing vgmstream output\n"@.is_prefix_of(
            r->Err_0@,
        ),
{
    match utf8_text(stdout) {
        None => Err(String::from_str("Error reading vgmstream output\nthe output is not UTF-8")),
        Some(text) => {
            if text.as_str().unicode_len() > 8192 {
                let m = String::from_str("Error parsing vgmstream output\nthe output is too long");
                proof {
                    reveal_strlit("Error parsing vgmstream output\nthe output is too long");
                    reveal_strlit("Error parsing vgmstream output\n");
                    assert(m@.subrange(0, "Error parsing vgmstream output\n"@.len() as int)
                        =~= "Error parsing vgmstream output\n"@);
                }
                return Err(m);
            }
            match read_member_fields(text.as_str(), "loopingInfo", "start", "end") {
                Ok(fields) => Ok(fields),
                Err(message) => {
                    let m = joined("Error parsing vgmstream output\n", message.as_str());
                    proof {
                        assert(m@.subrange(0, "Error parsing vgmstream output\n"@.len() as int)
                            =~= "Error parsing vgmstream output\n"@);
                    }
                    Err(m)
                },
            }
        },
    }
}

/// Loop points from the probing tool's metadata output: the `start` and
/// `end` of its `loopingInfo` object, where both are unsigned integers and
/// the end lies after the start; any failure gives none, as loop points are
/// optional.
pub fn loop_points_of_output(stdout: &[u8]) -> (r: Option<(usize, usize)>)
    ensures
        r == (match metadata_fields(stdout@) {
            Some(fields) => loop_points_of_fields_spec(fields),
            None => None::<(usize, usize)>,
        }),
        r matches Some((s, e)) ==> s < e,
{
    match parse_metadata(stdout) {
        Ok(fields) => loop_points_of_fields(&fields),
        Err(_) => None,
    }
}

} // verus!
