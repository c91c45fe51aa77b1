//! The sidecar wire formats: the one-line JSON request sent to the
//! persistent worker, the interpretation of its one-line JSON reply, the
//! WAV encoding of a chunk, and the interpretation of the batch sidecar's
//! output. The host owns the processes and pipes; every byte that crosses
//! them is framed or judged here.

use vstd::prelude::*;

use crate::text::{
    chars_of, dec_digits, push_char, trim_spec, trim_str, u64_to_string, view_opt_string,
};

verus! {

/// A lowercase hexadecimal digit.
pub open spec fn hex_char(d: nat) -> char {
    if d == 0 {
        '0'
    } else if d == 1 {
        '1'
    } else if d == 2 {
        '2'
    } else if d == 3 {
        '3'
    } else if d == 4 {
        '4'
    } else if d == 5 {
        '5'
    } else if d == 6 {
        '6'
    } else if d == 7 {
        '7'
    } else if d == 8 {
        '8'
    } else if d == 9 {
        '9'
    } else if d == 10 {
        'a'
    } else if d == 11 {
        'b'
    } else if d == 12 {
        'c'
    } else if d == 13 {
        'd'
    } else if d == 14 {
        'e'
    } else {
        'f'
    }
}

fn hex_digit(d: u32) -> (r: char)
    requires
        d < 16,
    ensures
        r == hex_char(d as nat),
{
    if d == 0 {
        '0'
    } else if d == 1 {
        '1'
    } else if d == 2 {
        '2'
    } else if d == 3 {
        '3'
    } else if d == 4 {
        '4'
    } else if d == 5 {
        '5'
    } else if d == 6 {
        '6'
    } else if d == 7 {
        '7'
    } else if d == 8 {
        '8'
    } else if d == 9 {
        '9'
    } else if d == 10 {
        'a'
    } else if d == 11 {
        'b'
    } else if d == 12 {
        'c'
    } else if d == 13 {
        'd'
    } else if d == 14 {
        'e'
    } else {
        'f'
    }
}

/// How one character appears inside a JSON string: quote and backslash get
/// a backslash escape, the named control characters get their short
/// escapes, every other control character becomes a `\u00..` escape with
/// lowercase hex digits, and everything else stands as itself.
pub open spec fn json_escaped_char(c: char) -> Seq<char> {
    if c == '"' {
        seq!['\\', '"']
    } else if c == '\\' {
        seq!['\\', '\\']
    } else if c == '\u{08}' {
        seq!['\\', 'b']
    } else if c == '\t' {
        seq!['\\', 't']
    } else if c == '\n' {
        seq!['\\', 'n']
    } else if c == '\u{0C}' {
        seq!['\\', 'f']
    } else if c == '\r' {
        seq!['\\', 'r']
    } else if (c as u32) < 0x20 {
        seq!['\\', 'u', '0', '0', hex_char((c as u32 / 16) as nat), hex_char((c as u32 % 16) as nat)]
    } else {
        seq![c]
    }
}

/// The body of a JSON string: every character escaped.
pub open spec fn json_escaped(s: Seq<char>) -> Seq<char>
    decreases s.len(),
{
    if s.len() == 0 {
        Seq::empty()
    } else {
        json_escaped(s.drop_last()) + json_escaped_char(s.last())
    }
}

/// A complete JSON string literal for the text.
pub open spec fn json_quoted(s: Seq<char>) -> Seq<char> {
    seq!['"'] + json_escaped(s) + seq!['"']
}

fn push_escaped_char(out: &mut String, c: char)
    ensures
        final(out)@ == old(out)@ + json_escaped_char(c),
{
    if c == '"' {
        push_char(out, '\\');
        push_char(out, '"');
    } else if c == '\\' {
        push_char(out, '\\');
        push_char(out, '\\');
    } else if c == '\u{08}' {
        push_char(out, '\\');
        push_char(out, 'b');
    } else if c == '\t' {
        push_char(out, '\\');
        push_char(out, 't');
    } else if c == '\n' {
        push_char(out, '\\');
        push_char(out, 'n');
    } else if c == '\u{0C}' {
        push_char(out, '\\');
        push_char(out, 'f');
    } else if c == '\r' {
        push_char(out, '\\');
        push_char(out, 'r');
    } else if (c as u32) < 0x20 {
        let code = c as u32;
        push_char(out, '\\');
        push_char(out, 'u');
        push_char(out, '0');
        push_char(out, '0');
        push_char(out, hex_digit(code / 16));
        push_char(out, hex_digit(code % 16));
    } else {
        push_char(out, c);
    }
    proof {
        assert(out@ =~= old(out)@ + json_escaped_char(c));
    }
}

/// Append the JSON string literal for `s`.
fn push_json_string(out: &mut String, s: &str)
    ensures
        final(out)@ == old(out)@ + json_quoted(s@),
{
    push_char(out, '"');
    let v = chars_of(s);
    let n = v.len();
    let mut i: usize = 0;
    while i < n
        invariant
            i <= n,
            n == v@.len(),
            v@ == s@,
            out@ == old(out)@ + seq!['"'] + json_escaped(s@.subrange(0, i as int)),
        decreases n - i,
    {
        push_escaped_char(out, v[i]);
        proof {
            assert(s@.subrange(0, i + 1).drop_last() =~= s@.subrange(0, i as int));
            assert(out@ =~= old(out)@ + seq!['"'] + json_escaped(s@.subrange(0, i + 1)));
        }
        i += 1;
    }
    proof {
        assert(s@.subrange(0, n as int) =~= s@);
    }
    push_char(out, '"');
    proof {
        assert(out@ =~= old(out)@ + json_quoted(s@));
    }
}

/// The one-line JSON request sent to the persistent worker, exactly one
/// object per line: `op`, `id`, `audio_path`, `language`, `model`,
/// `device`, `compute_type` and `beam_size`, in that order.
pub open spec fn request_line_spec(
    id: Seq<char>,
    audio_path: Seq<char>,
    language: Seq<char>,
    model: Seq<char>,
    device: Seq<char>,
    compute_type: Seq<char>,
    beam_size: nat,
) -> Seq<char> {
    "{\"op\":\"transcribe\",\"id\":"@ + json_quoted(id) + ",\"audio_path\":"@ + json_quoted(
        audio_path,
    ) + ",\"language\":"@ + json_quoted(language) + ",\"model\":"@ + json_quoted(model)
        + ",\"device\":"@ + json_quoted(device) + ",\"compute_type\":"@ + json_quoted(compute_type)
        + ",\"beam_size\":"@ + dec_digits(beam_size) + "}"@
}

/// Frame one transcription request for the persistent worker.
pub fn worker_request_line(
    id: &str,
    audio_path: &str,
    language: &str,
    model: &str,
    device: &str,
    compute_type: &str,
    beam_size: u8,
) -> (r: String)
    ensures
        r@ == request_line_spec(
            id@,
            audio_path@,
            language@,
            model@,
            device@,
            compute_type@,
            beam_size as nat,
        ),
{
    let mut line = String::from_str("{\"op\":\"transcribe\",\"id\":");
    push_json_string(&mut line, id);
    line.append(",\"audio_path\":");
    push_json_string(&mut line, audio_path);
    line.append(",\"language\":");
    push_json_string(&mut line, language);
    line.append(",\"model\":");
    push_json_string(&mut line, model);
    line.append(",\"device\":");
    push_json_string(&mut line, device);
    line.append(",\"compute_type\":");
    push_json_string(&mut line, compute_type);
    line.append(",\"beam_size\":");
    let beam = u64_to_string(beam_size as u64);
    line.append(beam.as_str());
    line.append("}");
    proof {
        assert(line@ =~= request_line_spec(
            id@,
            audio_path@,
            language@,
            model@,
            device@,
            compute_type@,
            beam_size as nat,
        ));
    }
    line
}

/// What parsing one worker reply line yields: whether the line is a JSON
/// object with a boolean `ok`, and the `text` and `error` string fields
/// when present. A function of the line alone.
pub uninterp spec fn reply_fields_of(line: Seq<char>) -> Option<
    (bool, Option<Seq<char>>, Option<Seq<char>>),
>;

pub open spec fn view_reply_fields(r: Option<(bool, Option<String>, Option<String>)>) -> Option<
    (bool, Option<Seq<char>>, Option<Seq<char>>),
> {
    match r {
        Some((ok, text, error)) => Some((ok, view_opt_string(text), view_opt_string(error))),
        None => None,
    }
}

/// Relies on `serde_json::from_str` and `serde_json::Value`'s accessors:
/// parses one reply line into its `ok`, `text` and `error` fields; `None`
/// when the line is not a JSON object with a boolean `ok`.
#[verifier::external_body]
fn parse_reply_json(line: &str) -> (r: Option<(bool, Option<String>, Option<String>)>)
    ensures
        view_reply_fields(r) == reply_fields_of(line@),
{
    let value: serde_json::Value = match serde_json::from_str(line) {
        Ok(v) => v,
        Err(_) => return None,
    };
    let ok = match value.get("ok").and_then(serde_json::Value::as_bool) {
        Some(b) => b,
        None => return None,
    };
    let text = value.get("text").and_then(serde_json::Value::as_str).map(str::to_string);
    let error = value.get("error").and_then(serde_json::Value::as_str).map(str::to_string);
    Some((ok, text, error))
}

/// How a parsed worker reply is judged: a failing reply surfaces its error
/// (or a fixed message when none was sent); a successful reply must carry
/// text that is non-blank after trimming, which is returned trimmed.
pub open spec fn reply_outcome(
    ok: bool,
    text: Option<Seq<char>>,
    error: Option<Seq<char>>,
) -> Result<Seq<char>, Seq<char>> {
    if !ok {
        Err(
            match error {
                Some(e) => e,
                None => "unknown faster-whisper worker error"@,
            },
        )
    } else {
        let t = trim_spec(
            match text {
                Some(x) => x,
                None => Seq::empty(),
            },
        );
        if t.len() == 0 {
            Err("faster-whisper worker returned empty transcript"@)
        } else {
            Ok(t)
        }
    }
}

/// Judge the parsed fields of one worker reply.
pub fn interpret_worker_reply(ok: bool, text: Option<String>, error: Option<String>) -> (r: Result<
    String,
    String,
>)
    ensures
        match reply_outcome(ok, view_opt_string(text), view_opt_string(error)) {
            Ok(t) => r is Ok && r->Ok_0@ == t,
            Err(m) => r is Err && r->Err_0@ == m,
        },
{
    if !ok {
        return Err(
            match error {
                Some(e) => e,
                None => String::from_str("unknown faster-whisper worker error"),
            },
        );
    }
    let raw = match text {
        Some(x) => x,
        None => String::new(),
    };
    let trimmed = trim_str(raw.as_str());
    if trimmed.as_str().unicode_len() == 0 {
        Err(String::from_str("faster-whisper worker returned empty transcript"))
    } else {
        Ok(trimmed)
    }
}

/// Handle one reply line read from the persistent worker: a line that does
/// not parse is a protocol error; a parsed reply is judged by
/// [`reply_outcome`].
pub fn handle_worker_line(line: &str) -> (r: Result<String, String>)
    ensures
        match reply_fields_of(line@) {
            Some((ok, text, error)) => match reply_outcome(ok, text, error) {
                Ok(t) => r is Ok && r->Ok_0@ == t,
                Err(m) => r is Err && r->Err_0@ == m,
            },
            None => r is Err && r->Err_0@ == "invalid faster-whisper response"@,
        },
{
    match parse_reply_json(line) {
        Some((ok, text, error)) => interpret_worker_reply(ok, text, error),
        None => Err(String::from_str("invalid faster-whisper response")),
    }
}

/// One worker read, judged: whether the worker's handle is kept, and what
/// the call returns.
#[derive(Debug, PartialEq, Eq)]
pub struct WorkerReadStep {
    pub keep_worker: bool,
    pub outcome: Result<String, String>,
}

/// Drive the persistent worker's lifecycle from one read of its output: a
/// zero-byte read means the worker closed its output, so the handle is
/// discarded (the next call respawns a fresh process) and the call fails
/// with the fixed message; otherwise the handle is kept and the trimmed
/// reply line is judged as [`handle_worker_line`] judges it.
pub fn handle_worker_read(bytes_read: usize, line: &str) -> (r: WorkerReadStep)
    ensures
        r.keep_worker == (bytes_read > 0),
        bytes_read == 0 ==> r.outcome is Err && r.outcome->Err_0@
            == "faster-whisper worker closed stdout unexpectedly"@,
        bytes_read > 0 ==> match reply_fields_of(trim_spec(line@)) {
            Some((ok, text, error)) => match reply_outcome(ok, text, error) {
                Ok(t) => r.outcome is Ok && r.outcome->Ok_0@ == t,
                Err(m) => r.outcome is Err && r.outcome->Err_0@ == m,
            },
            None => r.outcome is Err && r.outcome->Err_0@ == "invalid faster-whisper response"@,
        },
{
    if bytes_read == 0 {
        WorkerReadStep {
            keep_worker: false,
            outcome: Err(String::from_str("faster-whisper worker closed stdout unexpectedly")),
        }
    } else {
        let trimmed = trim_str(line);
        WorkerReadStep { keep_worker: true, outcome: handle_worker_line(trimmed.as_str()) }
    }
}

/// The largest chunk the WAV artifact can hold without overflowing the
/// container's 32-bit byte-size fields.
pub const MAX_WAV_SAMPLES: usize = 0x3FFF_FFFF;

/// What the WAV encoding of a chunk is: the bytes of a mono, 16 kHz,
/// 16-bit signed PCM WAV file holding exactly these samples. A function of
/// the samples alone.
pub uninterp spec fn wav_bytes_of(samples: Seq<i16>) -> Seq<u8>;

/// Relies on `hound::WavWriter::new`, `write_sample` and `finalize` over an
/// in-memory cursor: encodes the samples as a mono 16 kHz 16-bit signed PCM
/// WAV file, a 44-byte header followed by two bytes per sample. Writing to
/// an in-memory buffer cannot fail for this format, and the length bound
/// keeps the container's 32-bit byte counters sound, so success is
/// promised.
#[verifier::external_body]
fn wav_encode(samples: &[i16]) -> (r: Result<Vec<u8>, String>)
    requires
        samples@.len() <= MAX_WAV_SAMPLES,
    ensures
        r is Ok,
        r matches Ok(bytes) ==> bytes@ == wav_bytes_of(samples@) && bytes@.len() == 44 + 2
            * samples@.len(),
{
    let spec =
        hound::WavSpec { channels: 1, sample_rate: 16_000, bits_per_sample: 16, sample_format: hound::SampleFormat::Int };
    let mut cursor = std::io::Cursor::new(Vec::new());
    let mut writer = hound::WavWriter::new(&mut cursor, spec)
        .map_err(|e| format!("failed to create wav file: {}", e))?;
    for sample in samples.iter() {
        writer.write_sample(*sample).map_err(|e| format!("failed to write wav sample: {}", e))?;
    }
    writer.finalize().map_err(|e| format!("failed to finalize wav file: {}", e))?;
    Ok(cursor.into_inner())
}

/// Encode one chunk as the WAV artifact both sidecar protocols consume; an
/// empty chunk is rejected before anything is encoded, and every non-empty
/// chunk within the container's size limit encodes successfully.
pub fn encode_chunk_wav(samples: &[i16]) -> (r: Result<Vec<u8>, String>)
    requires
        samples@.len() <= MAX_WAV_SAMPLES,
    ensures
        samples@.len() == 0 ==> r is Err && r->Err_0@ == "cannot transcribe empty audio chunk"@,
        samples@.len() > 0 ==> r is Ok && r->Ok_0@ == wav_bytes_of(samples@) && r->Ok_0@.len() == 44
            + 2 * samples@.len(),
{
    if samples.len() == 0 {
        return Err(String::from_str("cannot transcribe empty audio chunk"));
    }
    wav_encode(samples)
}

/// How the batch sidecar's outcome is judged: a non-zero exit surfaces the
/// status and trimmed standard error; otherwise the transcript is the text
/// file's contents when one was produced, else captured standard output,
/// and must be non-blank after trimming.
pub open spec fn sidecar_outcome(
    status_success: bool,
    status_label: Seq<char>,
    stderr_output: Seq<char>,
    txt_contents: Option<Seq<char>>,
    stdout_contents: Seq<char>,
) -> Result<Seq<char>, Seq<char>> {
    if !status_success {
        Err(
            "whisper sidecar exited with status "@ + status_label + ": "@ + trim_spec(
                stderr_output,
            ),
        )
    } else {
        let raw = match txt_contents {
            Some(t) => t,
            None => stdout_contents,
        };
        let t = trim_spec(raw);
        if t.len() == 0 {
            Err("whisper sidecar returned empty transcript"@)
        } else {
            Ok(t)
        }
    }
}

/// Judge one run of the batch whisper sidecar from what the host observed:
/// the exit status and its label, captured standard error and output, and
/// the transcript file's contents when the file appeared.
pub fn interpret_sidecar_output(
    status_success: bool,
    status_label: &str,
    stderr_output: &str,
    txt_contents: Option<String>,
    stdout_contents: String,
) -> (r: Result<String, String>)
    ensures
        match sidecar_outcome(
            status_success,
            status_label@,
            stderr_output@,
            view_opt_string(txt_contents),
            stdout_contents@,
        ) {
            Ok(t) => r is Ok && r->Ok_0@ == t,
            Err(m) => r is Err && r->Err_0@ == m,
        },
{
    if !status_success {
        let stderr_trimmed = trim_str(stderr_output);
        let mut message = String::from_str("whisper sidecar exited with status ");
        message.append(status_label);
        message.append(": ");
        message.append(stderr_trimmed.as_str());
        proof {
            assert(message@ =~= "whisper sidecar exited with status "@ + status_label@ + ": "@
                + trim_spec(stderr_output@));
        }
        return Err(message);
    }
    let raw = match txt_contents {
        Some(t) => t,
        None => stdout_contents,
    };
    let trimmed = trim_str(raw.as_str());
    if trimmed.as_str().unicode_len() == 0 {
        Err(String::from_str("whisper sidecar returned empty transcript"))
    } else {
        Ok(trimmed)
    }
}

} // verus!
