use vstd::prelude::*;
use vstd::string::*;

verus! {

/// Why turning an audio file into samples failed.
#[derive(Clone, Copy, Debug, PartialEq, Eq, Structural)]
pub enum IngestError {
    /// The input path cannot be handed to the decoder as text.
    InvalidPath,
    /// The decoder program is not installed.
    ToolUnavailable,
    /// The decoder ran and reported failure.
    ConversionFailed,
    /// The decoder's output cannot be read, or is not a readable WAV file.
    DecodeFailed,
    /// Starting the decoder, or removing its output file, failed.
    IoFailure,
}

/// How a run of the decoder program ended.
#[derive(Clone, Copy, Debug, PartialEq, Eq, Structural)]
pub enum ConversionStatus {
    /// The program could not be found.
    ToolMissing,
    /// The program could not be started or waited for.
    SpawnFailed,
    /// The program ran to its end.
    Exited { success: bool },
}

/// What was made of the decoder's output file.
#[derive(Clone, Debug)]
pub enum DecodedOutput {
    /// The file could not be read.
    Unreadable,
    /// The file was read but holds no readable PCM stream.
    Malformed,
    /// The samples that the file holds, in order.
    Samples(Vec<i16>),
}

/// The program that converts audio into 16 kHz mono PCM.
pub const DECODER_PROGRAM: &'static str = "ffmpeg";

/// Averages the first two channels into one.
pub const DEFAULT_FILTER: &'static str = "pan=mono|c0=0.5*c0+0.5*c1";

/// The samples of a WAV file, each converted to a signed 16-bit value, if
/// the file can be decoded.
pub uninterp spec fn wav_samples(bytes: Seq<u8>) -> Option<Seq<i16>>;

/// Relies on audrey::Reader::new and Reader::samples, built with the WAV
/// format alone, over the bytes in memory: the outcome depends on the bytes
/// alone, and input without even a header is refused.
#[verifier::external_body]
fn read_samples(bytes: &Vec<u8>) -> (r: Option<Vec<i16>>)
    ensures
        match r {
            Some(v) => wav_samples(bytes@) == Some(v@),
            None => wav_samples(bytes@) is None,
        },
        bytes@.len() == 0 ==> r is None,
{
    let mut reader = audrey::Reader::new(std::io::Cursor::new(bytes.as_slice())).ok()?;
    reader.samples::<i16>().collect::<Result<Vec<i16>, _>>().ok()
}

/// Relies on uuid::Uuid::new_v4 and its hyphenated text form: 36
/// characters, with hyphens after the 8th, 12th, 16th and 20th hex digit.
#[verifier::external_body]
fn random_uuid_text() -> (r: String)
    ensures
        r@.len() == 36,
        r@[8] == '-' && r@[13] == '-' && r@[18] == '-' && r@[23] == '-',
{
    uuid::Uuid::new_v4().hyphenated().to_string()
}

pub open spec fn filter_text(filter: Option<String>) -> Seq<char> {
    match filter {
        Some(f) => f@,
        None => DEFAULT_FILTER@,
    }
}

/// The decoder's arguments: 16 kHz, one channel, signed 16-bit little-endian
/// PCM, the filter, overwrite without asking, and errors only on the log.
pub open spec fn decoder_args_text(input: Seq<char>, filter: Seq<char>, output: Seq<char>) -> Seq<
    Seq<char>,
> {
    seq![
        "-i"@,
        input,
        "-ar"@,
        "16000"@,
        "-ac"@,
        "1"@,
        "-af"@,
        filter,
        "-c:a"@,
        "pcm_s16le"@,
        output,
        "-hide_banner"@,
        "-y"@,
        "-loglevel"@,
        "error"@,
    ]
}

pub open spec fn conversion_error_of(status: ConversionStatus) -> Option<IngestError> {
    match status {
        ConversionStatus::ToolMissing => Some(IngestError::ToolUnavailable),
        ConversionStatus::SpawnFailed => Some(IngestError::IoFailure),
        ConversionStatus::Exited { success } => if success {
            None
        } else {
            Some(IngestError::ConversionFailed)
        },
    }
}

/// A failed conversion decides the outcome; after a successful one a failed
/// removal of the output file does, then the output itself.
pub open spec fn outcome(status: ConversionStatus, decoded: DecodedOutput, removed: bool) -> Result<
    Seq<i16>,
    IngestError,
> {
    match conversion_error_of(status) {
        Some(e) => Err(e),
        None => if !removed {
            Err(IngestError::IoFailure)
        } else {
            match decoded {
                DecodedOutput::Unreadable => Err(IngestError::DecodeFailed),
                DecodedOutput::Malformed => Err(IngestError::DecodeFailed),
                DecodedOutput::Samples(v) => Ok(v@),
            }
        },
    }
}

/// The whole ingestion, from how the decoder ended, the bytes it left (if they
/// could be read) and whether its output file is gone.
pub open spec fn ingest_outcome(status: ConversionStatus, output: Option<Vec<u8>>, removed: bool) -> Result<
    Seq<i16>,
    IngestError,
> {
    match conversion_error_of(status) {
        Some(e) => Err(e),
        None => if !removed {
            Err(IngestError::IoFailure)
        } else {
            match output {
                None => Err(IngestError::DecodeFailed),
                Some(b) => match wav_samples(b@) {
                    None => Err(IngestError::DecodeFailed),
                    Some(s) => Ok(s),
                },
            }
        },
    }
}

/// The filter to convert with: the caller's, else the default downmix.
pub fn resolve_filter(filter: Option<String>) -> (r: String)
    ensures
        r@ == filter_text(filter),
{
    match filter {
        Some(f) => f,
        None => String::from_str(DEFAULT_FILTER),
    }
}

/// The arguments for the decoder, or `InvalidPath` when the input path has
/// no text form (`None`), before anything is started.
pub fn decoder_args(input: Option<String>, filter: Option<String>, output: &str) -> (r: Result<
    Vec<String>,
    IngestError,
>)
    ensures
        match input {
            None => r == Err::<Vec<String>, IngestError>(IngestError::InvalidPath),
            Some(i) => r is Ok && r->Ok_0@.map_values(|a: String| a@) == decoder_args_text(
                i@,
                filter_text(filter),
                output@,
            ),
        },
{
    let input = match input {
        None => return Err(IngestError::InvalidPath),
        Some(i) => i,
    };
    let ghost input_text = input@;
    let filter = resolve_filter(filter);
    let ghost filter_view = filter@;
    let mut args: Vec<String> = Vec::new();
    args.push(String::from_str("-i"));
    args.push(input);
    args.push(String::from_str("-ar"));
    args.push(String::from_str("16000"));
    args.push(String::from_str("-ac"));
    args.push(String::from_str("1"));
    args.push(String::from_str("-af"));
    args.push(filter);
    args.push(String::from_str("-c:a"));
    args.push(String::from_str("pcm_s16le"));
    args.push(String::from_str(output));
    args.push(String::from_str("-hide_banner"));
    args.push(String::from_str("-y"));
    args.push(String::from_str("-loglevel"));
    args.push(String::from_str("error"));
    assert(args@.map_values(|a: String| a@) =~= decoder_args_text(
        input_text,
        filter_view,
        output@,
    ));
    Ok(args)
}

/// The decoder's output file name for the identifier `id`.
pub fn output_name(id: &str) -> (r: String)
    ensures
        r@ == id@ + ".wav"@,
{
    String::from_str(id).concat(".wav")
}

/// A fresh file name for the decoder's output: a random hyphenated UUID and
/// `.wav`.
pub fn temp_output_name() -> (r: String)
    ensures
        r@.len() == 40,
        r@[8] == '-' && r@[13] == '-' && r@[18] == '-' && r@[23] == '-',
        r@.subrange(36, 40) == ".wav"@,
{
    let id = random_uuid_text();
    let r = output_name(id.as_str());
    proof {
        reveal_strlit(".wav");
        assert(r@.subrange(36, 40) =~= ".wav"@);
    }
    r
}

/// The error that a decoder run ended with, if any.
pub fn conversion_error(status: ConversionStatus) -> (r: Option<IngestError>)
    ensures
        r == conversion_error_of(status),
{
    match status {
        ConversionStatus::ToolMissing => Some(IngestError::ToolUnavailable),
        ConversionStatus::SpawnFailed => Some(IngestError::IoFailure),
        ConversionStatus::Exited { success } => if success {
            None
        } else {
            Some(IngestError::ConversionFailed)
        },
    }
}

/// Decodes the bytes of the decoder's output file (`None`: it could not be read).
pub fn decode_output(output: Option<Vec<u8>>) -> (r: DecodedOutput)
    ensures
        match output {
            None => r is Unreadable,
            Some(b) => match wav_samples(b@) {
                None => r is Malformed,
                Some(s) => r is Samples && r->Samples_0@ == s,
            },
        },
        output matches Some(b) && b@.len() == 0 ==> r is Malformed,
{
    match output {
        None => DecodedOutput::Unreadable,
        Some(b) => match read_samples(&b) {
            None => DecodedOutput::Malformed,
            Some(v) => DecodedOutput::Samples(v),
        },
    }
}

/// Settles an ingestion from how the decoder ended, what its output decoded
/// to, and whether the output file was removed.
pub fn conclude(status: ConversionStatus, decoded: DecodedOutput, removed: bool) -> (r: Result<
    Vec<i16>,
    IngestError,
>)
    ensures
        match r {
            Ok(v) => outcome(status, decoded, removed) == Ok::<Seq<i16>, IngestError>(v@),
            Err(e) => outcome(status, decoded, removed) == Err::<Seq<i16>, IngestError>(e),
        },
{
    if let Some(e) = conversion_error(status) {
        return Err(e);
    }
    if !removed {
        return Err(IngestError::IoFailure);
    }
    match decoded {
        DecodedOutput::Unreadable => Err(IngestError::DecodeFailed),
        DecodedOutput::Malformed => Err(IngestError::DecodeFailed),
        DecodedOutput::Samples(v) => Ok(v),
    }
}

/// After a successful conversion whose output file was removed, output that
/// could not be read, or that is not a decodable WAV file, ends the ingestion
/// with `DecodeFailed`.
pub proof fn lemma_bad_output_is_decode_failed(output: Option<Vec<u8>>)
    requires
        output matches Some(b) ==> wav_samples(b@) is None,
    ensures
        ingest_outcome(ConversionStatus::Exited { success: true }, output, true) == Err::<
            Seq<i16>,
            IngestError,
        >(IngestError::DecodeFailed),
{
}

/// Settles an ingestion from how the decoder ended, the bytes of its output
/// file (`None`: they could not be read) and whether that file was removed.
/// The output is decoded only after a successful conversion.
pub fn finish_ingest(status: ConversionStatus, output: Option<Vec<u8>>, removed: bool) -> (r: Result<
    Vec<i16>,
    IngestError,
>)
    ensures
        match r {
            Ok(v) => ingest_outcome(status, output, removed) == Ok::<Seq<i16>, IngestError>(v@),
            Err(e) => ingest_outcome(status, output, removed) == Err::<Seq<i16>, IngestError>(e),
        },
{
    if let Some(e) = conversion_error(status) {
        return Err(e);
    }
    let decoded = decode_output(output);
    conclude(status, decoded, removed)
}

} // verus!
