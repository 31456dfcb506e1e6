//! What the encoder process is told and how its answers are judged. The
//! process itself is started, fed and awaited by the caller; this module
//! decides what its command line is and which failure each outcome means.

use vstd::prelude::*;
use crate::text::{decimal, decimal_string, io_error_text, join};
use crate::video::Video;

verus! {

/// The error type of std's I/O, carried through unopened.
#[verifier::external_type_specification]
#[verifier::external_body]
pub struct ExIoError(std::io::Error);

/// Why the encoder could not do its work.
#[derive(Debug)]
pub enum FfmpegError {
    /// No executable was found at the given path.
    NotFound(String),
    /// Starting, feeding or awaiting the process failed in another way.
    Unknown(std::io::Error),
    /// The process ended without reporting success; its exit code, if it had
    /// one.
    Failed(Option<i32>),
}

impl From<std::io::Error> for FfmpegError {
    fn from(error: std::io::Error) -> (converted: FfmpegError) {
        FfmpegError::Unknown(error)
    }
}

impl vstd::std_specs::convert::FromSpecImpl<std::io::Error> for FfmpegError {
    open spec fn obeys_from_spec() -> bool {
        true
    }

    open spec fn from_spec(error: std::io::Error) -> FfmpegError {
        FfmpegError::Unknown(error)
    }
}

/// The size argument of a `width` by `height` stream: the two numbers with
/// an `x` between them.
pub open spec fn dimensions(width: u32, height: u32) -> Seq<char> {
    decimal(width as nat) + "x"@ + decimal(height as nat)
}

/// The arguments that start an encoder reading the frames of `video` from
/// its standard input and writing to `output`: overwrite without asking;
/// raw RGBA frames of the video's size and rate come in; the same rate goes
/// out.
pub open spec fn command_line(video: Video, output: Seq<char>) -> Seq<Seq<char>> {
    seq![
        "-y"@,
        "-f"@,
        "rawvideo"@,
        "-pix_fmt"@,
        "rgba"@,
        "-s"@,
        dimensions(video.width, video.height),
        "-r"@,
        decimal(video.fps as nat),
        "-i"@,
        "-"@,
        "-r"@,
        decimal(video.fps as nat),
        output,
    ]
}

/// Whether `args` are, word for word, the arguments that start an encoder
/// for `video` writing to `output`.
pub open spec fn is_command_line(args: Seq<String>, video: Video, output: Seq<char>) -> bool {
    &&& args.len() == 14
    &&& forall|i: int| 0 <= i < 14 ==> (#[trigger] args[i])@ == command_line(video, output)[i]
}

/// Whether an I/O error says that something was not found, by
/// `std::io::Error::kind`. Nothing is claimed of the answer.
#[verifier::external_body]
fn is_not_found(error: &std::io::Error) -> (missing: bool) {
    error.kind() == std::io::ErrorKind::NotFound
}

impl FfmpegError {
    /// This error in words, where `detail` is what the underlying I/O error
    /// says of itself: a missing executable is reported with its path, an
    /// I/O error with its own words, a failed run as such.
    pub open spec fn worded(self, detail: Seq<char>) -> Seq<char> {
        match self {
            FfmpegError::NotFound(path) => "Could not find FFMPEG at "@ + path@
                + ". Check your PATH."@,
            FfmpegError::Unknown(_) => "Unknown error starting FFMPEG: "@ + detail,
            FfmpegError::Failed(_) => "FFMPEG did not finish its work."@,
        }
    }

    /// What the underlying I/O error says of itself; nothing where there is
    /// none.
    pub fn detail(&self) -> (detail: String)
        ensures
            !(self is Unknown) ==> detail@.len() == 0,
    {
        match self {
            FfmpegError::Unknown(error) => io_error_text(error),
            _ => String::new(),
        }
    }

    /// The error in words, with `detail` for the words of the underlying
    /// I/O error.
    pub fn message_with(&self, detail: &str) -> (text: String)
        ensures
            text@ == self.worded(detail@),
    {
        proof {
            reveal_strlit("");
        }
        match self {
            FfmpegError::NotFound(path) => join(
                "Could not find FFMPEG at ",
                path.as_str(),
                ". Check your PATH.",
            ),
            FfmpegError::Unknown(_) => {
                let text = join("Unknown error starting FFMPEG: ", detail, "");
                assert(text@ =~= self.worded(detail@));
                text
            },
            FfmpegError::Failed(_) => "FFMPEG did not finish its work.".to_owned(),
        }
    }

    /// The error in words, the underlying I/O error speaking for itself.
    pub fn message(&self) -> (text: String)
        ensures
            exists|detail: Seq<char>| text@ == #[trigger] self.worded(detail),
    {
        let detail = self.detail();
        self.message_with(detail.as_str())
    }
}

/// The error that a failed start of the encoder at `ffmpeg_path` stands
/// for: the path if nothing was found there, the I/O error otherwise.
pub fn launch_error(ffmpeg_path: &str, error: std::io::Error, missing: bool) -> (failure:
    FfmpegError)
    ensures
        missing ==> (failure matches FfmpegError::NotFound(path) && path@ == ffmpeg_path@),
        !missing ==> failure == FfmpegError::Unknown(error),
{
    if missing {
        FfmpegError::NotFound(ffmpeg_path.to_owned())
    } else {
        FfmpegError::Unknown(error)
    }
}

/// Judges a trial run of the encoder at `ffmpeg_path`. The encoder is
/// available exactly if the run could be started; a failed start is either
/// a missing executable, reported with the path, or the I/O error itself.
pub fn is_ffmpeg_available(ffmpeg_path: &str, probe: Result<(), std::io::Error>) -> (available:
    Result<(), FfmpegError>)
    ensures
        match available {
            Ok(_) => probe is Ok,
            Err(FfmpegError::NotFound(path)) => probe is Err && path@ == ffmpeg_path@,
            Err(FfmpegError::Unknown(error)) => probe == Err::<(), std::io::Error>(error),
            Err(FfmpegError::Failed(_)) => false,
        },
{
    match probe {
        Ok(_) => Ok(()),
        Err(error) => {
            let missing: bool = is_not_found(&error);
            Err(launch_error(ffmpeg_path, error, missing))
        },
    }
}

/// Judges the writing of one frame to the encoder: a failed write ends the
/// render with the I/O error, and nothing is tried again.
pub fn submit_frame(written: Result<(), std::io::Error>) -> (submitted: Result<(), FfmpegError>)
    ensures
        submitted == match written {
            Ok(_) => Ok::<(), FfmpegError>(()),
            Err(error) => Err::<(), FfmpegError>(FfmpegError::Unknown(error)),
        },
{
    match written {
        Ok(_) => Ok(()),
        Err(error) => Err(FfmpegError::Unknown(error)),
    }
}

/// Judges how the encoder ended after its input was closed: it succeeded
/// exactly if it could be awaited and left with exit code zero.
pub fn wait_ffmpeg(ended: Result<Option<i32>, std::io::Error>) -> (finished: Result<
    (),
    FfmpegError,
>)
    ensures
        finished == match ended {
            Ok(Some(0i32)) => Ok::<(), FfmpegError>(()),
            Ok(code) => Err::<(), FfmpegError>(FfmpegError::Failed(code)),
            Err(error) => Err::<(), FfmpegError>(FfmpegError::Unknown(error)),
        },
{
    match ended {
        Ok(Some(0)) => Ok(()),
        Ok(code) => Err(FfmpegError::Failed(code)),
        Err(error) => Err(FfmpegError::Unknown(error)),
    }
}

/// The arguments that announce raw RGBA frames.
pub fn get_format_args() -> (args: [&'static str; 4])
    ensures
        args@.len() == 4,
        args[0]@ == "-f"@,
        args[1]@ == "rawvideo"@,
        args[2]@ == "-pix_fmt"@,
        args[3]@ == "rgba"@,
{
    ["-f", "rawvideo", "-pix_fmt", "rgba"]
}

/// The arguments that give the frame size of `video`.
pub fn get_dimension_args(video: &Video) -> (args: [String; 2])
    ensures
        args[0]@ == "-s"@,
        args[1]@ == dimensions(video.width, video.height),
{
    let width = decimal_string(video.width);
    let height = decimal_string(video.height);
    ["-s".to_owned(), join(width.as_str(), "x", height.as_str())]
}

/// The arguments that give the frame rate of `video`.
pub fn get_fps_args(video: &Video) -> (args: [String; 2])
    ensures
        args[0]@ == "-r"@,
        args[1]@ == decimal(video.fps as nat),
{
    ["-r".to_owned(), decimal_string(video.fps)]
}

/// The arguments that make the encoder read from its standard input.
pub fn get_input_args() -> (args: [&'static str; 2])
    ensures
        args[0]@ == "-i"@,
        args[1]@ == "-"@,
{
    ["-i", "-"]
}

/// The argument that names the file to write.
pub fn get_output_args(output_filename: &str) -> (args: [&str; 1])
    ensures
        args[0]@ == output_filename@,
{
    [output_filename]
}

/// The whole command line of the encoder for `video`, after the name of
/// the executable. Size and rate are taken from the video that is rendered,
/// never from anywhere else.
pub fn start_ffmpeg(video: &Video, output_filename: &str) -> (args: Vec<String>)
    ensures
        is_command_line(args@, *video, output_filename@),
{
    let format = get_format_args();
    let dimension = get_dimension_args(video);
    let input = get_input_args();
    let output = get_output_args(output_filename);
    let mut args: Vec<String> = Vec::new();
    args.push("-y".to_owned());
    args.push(format[0].to_owned());
    args.push(format[1].to_owned());
    args.push(format[2].to_owned());
    args.push(format[3].to_owned());
    args.push(dimension[0].clone());
    args.push(dimension[1].clone());
    args.push("-r".to_owned());
    args.push(decimal_string(video.fps));
    args.push(input[0].to_owned());
    args.push(input[1].to_owned());
    args.push("-r".to_owned());
    args.push(decimal_string(video.fps));
    args.push(output[0].to_owned());
    args
}

} // verus!
