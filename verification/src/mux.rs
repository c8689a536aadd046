//! What the muxer is called with, and the names of the files that a session
//! writes.

use vstd::prelude::*;
use vstd::string::*;

verus! {

/// The texts of a list of strings.
pub open spec fn texts(items: Seq<String>) -> Seq<Seq<char>> {
    Seq::new(items.len(), |i: int| items[i]@)
}

/// The muxer's arguments: the two inputs, the video stream copied, the audio
/// stream encoded as AAC, then the output.
pub open spec fn mux_arguments_spec(video: Seq<char>, audio: Seq<char>, output: Seq<char>) -> Seq<
    Seq<char>,
> {
    seq!["-i"@, video, "-i"@, audio, "-c:v"@, "copy"@, "-c:a"@, "aac"@, output]
}

/// The name of the temporary video file.
pub fn temp_video_name() -> (name: String)
    ensures
        name@ == "output_ascii.mp4"@,
{
    String::from_str("output_ascii.mp4")
}

/// The name of the temporary audio file.
pub fn temp_audio_name() -> (name: String)
    ensures
        name@ == "output.opus"@,
{
    String::from_str("output.opus")
}

/// The name of the merged file.
pub fn final_output_name() -> (name: String)
    ensures
        name@ == "final_output.mp4"@,
{
    String::from_str("final_output.mp4")
}

/// The arguments for merging `video` and `audio` into `output`.
pub fn mux_arguments(video: &str, audio: &str, output: &str) -> (arguments: Vec<String>)
    ensures
        texts(arguments@) == mux_arguments_spec(video@, audio@, output@),
{
    let mut arguments: Vec<String> = Vec::new();
    arguments.push(String::from_str("-i"));
    arguments.push(String::from_str(video));
    arguments.push(String::from_str("-i"));
    arguments.push(String::from_str(audio));
    arguments.push(String::from_str("-c:v"));
    arguments.push(String::from_str("copy"));
    arguments.push(String::from_str("-c:a"));
    arguments.push(String::from_str("aac"));
    arguments.push(String::from_str(output));
    assert(texts(arguments@) =~= mux_arguments_spec(video@, audio@, output@));
    arguments
}

} // verus!
