//! The choice of the streams to play.
use vstd::prelude::*;

verus! {

/// The channel count of audio whose container does not tell it.
pub const DEFAULT_CHANNELS: u16 = 2;

/// The sample rate of audio whose container does not tell it.
pub const DEFAULT_SAMPLE_RATE: u32 = 48_000;

/// Seconds per timestamp tick, as a fraction.
#[derive(Debug, Clone, Copy, PartialEq, Eq)]
pub struct TimeBase {
    pub num: i64,
    pub den: i64,
}

/// What a container tells of one of its streams.
#[derive(Debug, PartialEq, Eq)]
pub struct StreamInfo {
    pub index: u32,
    pub codec: String,
    pub time_base: TimeBase,
    pub channels: Option<u16>,
    pub sample_rate: Option<u32>,
}

/// The streams that are played, and how.
#[derive(Debug, Clone, Copy, PartialEq, Eq)]
pub struct StreamSelection {
    pub video_index: u32,
    pub video_time_base: TimeBase,
    pub audio_index: Option<u32>,
    pub audio_channels: u16,
    pub audio_rate: u32,
}

/// Why a container cannot be played.
#[derive(Debug, Clone, Copy, PartialEq, Eq)]
pub enum StreamError {
    VideoStreamNotFound,
}

/// The position of the first stream from `from` on that has the given codec.
pub open spec fn first_index(streams: Seq<StreamInfo>, codec: Seq<char>, from: int) -> Option<int>
    decreases streams.len() - from,
{
    if from >= streams.len() {
        None
    } else if streams[from].codec@ == codec {
        Some(from)
    } else {
        first_index(streams, codec, from + 1)
    }
}

/// The selection that plays the first AV1 stream and the first stream of little-endian
/// 16-bit PCM, if there is one.
pub open spec fn selection(streams: Seq<StreamInfo>) -> Option<StreamSelection> {
    let audio = first_index(streams, "pcm_s16le"@, 0);
    match first_index(streams, "av1"@, 0) {
        None => None,
        Some(video) => Some(
            StreamSelection {
                video_index: streams[video].index,
                video_time_base: streams[video].time_base,
                audio_index: match audio {
                    Some(i) => Some(streams[i].index),
                    None => None,
                },
                audio_channels: match audio {
                    Some(i) => streams[i].channels.unwrap_or(DEFAULT_CHANNELS),
                    None => DEFAULT_CHANNELS,
                },
                audio_rate: match audio {
                    Some(i) => streams[i].sample_rate.unwrap_or(DEFAULT_SAMPLE_RATE),
                    None => DEFAULT_SAMPLE_RATE,
                },
            },
        ),
    }
}

/// Picks the streams to play. Only a missing video stream is an error.
pub fn select_streams(streams: &Vec<StreamInfo>) -> (selected: Result<StreamSelection, StreamError>)
    ensures
        match selected {
            Ok(chosen) => selection(streams@) == Some(chosen),
            Err(StreamError::VideoStreamNotFound) => selection(streams@) is None,
        },
{
    let video: usize = match find_codec(streams, "av1") {
        Some(i) => i,
        None => {
            return Err(StreamError::VideoStreamNotFound);
        },
    };
    let video_index: u32 = streams[video].index;
    let video_time_base = streams[video].time_base;
    match find_codec(streams, "pcm_s16le") {
        Some(audio) => Ok(
            StreamSelection {
                video_index,
                video_time_base,
                audio_index: Some(streams[audio].index),
                audio_channels: streams[audio].channels.unwrap_or(DEFAULT_CHANNELS),
                audio_rate: streams[audio].sample_rate.unwrap_or(DEFAULT_SAMPLE_RATE),
            },
        ),
        None => Ok(
            StreamSelection {
                video_index,
                video_time_base,
                audio_index: None,
                audio_channels: DEFAULT_CHANNELS,
                audio_rate: DEFAULT_SAMPLE_RATE,
            },
        ),
    }
}

fn find_codec(streams: &Vec<StreamInfo>, codec: &str) -> (found: Option<usize>)
    ensures
        match found {
            Some(i) => i < streams@.len() && first_index(streams@, codec@, 0) == Some(i as int),
            None => first_index(streams@, codec@, 0) is None,
        },
{
    let wanted: String = codec.to_string();
    let mut i: usize = 0;
    while i < streams.len()
        invariant
            i <= streams@.len(),
            wanted@ == codec@,
            first_index(streams@, codec@, 0) == first_index(streams@, codec@, i as int),
        decreases streams@.len() - i,
    {
        if streams[i].codec == wanted {
            return Some(i);
        }
        i = i + 1;
    }
    None
}

impl StreamError {
    /// The message for the user.
    pub fn message(&self) -> (text: String)
        ensures
            text@ == "AV1 video stream not found"@,
    {
        match self {
            StreamError::VideoStreamNotFound => "AV1 video stream not found".to_string(),
        }
    }
}

/// The position that `first_index` gives holds the codec, no earlier one does, and `None`
/// means that no stream has it.
pub proof fn law_first_index_is_first(streams: Seq<StreamInfo>, codec: Seq<char>, from: int)
    requires
        0 <= from,
    ensures
        match first_index(streams, codec, from) {
            Some(i) => {
                &&& from <= i < streams.len()
                &&& streams[i].codec@ == codec
                &&& forall|j: int| from <= j < i ==> (#[trigger] streams[j]).codec@ != codec
            },
            None => forall|j: int|
                from <= j < streams.len() ==> (#[trigger] streams[j]).codec@ != codec,
        },
    decreases streams.len() - from,
{
    if from < streams.len() && streams[from].codec@ != codec {
        law_first_index_is_first(streams, codec, from + 1);
    }
}

/// A container can be played exactly if one of its streams is AV1, whatever else it holds.
pub proof fn law_playable_iff_av1(streams: Seq<StreamInfo>)
    ensures
        selection(streams) is Some <==> exists|i: int|
            0 <= i < streams.len() && (#[trigger] streams[i]).codec@ == "av1"@,
{
    law_first_index_is_first(streams, "av1"@, 0);
}

/// Playing uses the first AV1 stream: its index and its time base.
pub proof fn law_first_av1_is_played(streams: Seq<StreamInfo>, video: int)
    requires
        0 <= video < streams.len(),
        streams[video].codec@ == "av1"@,
        forall|i: int| 0 <= i < video ==> (#[trigger] streams[i]).codec@ != "av1"@,
    ensures
        selection(streams) is Some,
        selection(streams)->0.video_index == streams[video].index,
        selection(streams)->0.video_time_base == streams[video].time_base,
{
    law_first_index_is_first(streams, "av1"@, 0);
    let found = first_index(streams, "av1"@, 0)->0;
    if found < video {
        assert(streams[found].codec@ != "av1"@);
    }
    if video < found {
        assert(streams[video].codec@ != "av1"@);
    }
}

/// If there is a video to play, its audio is the first stream of little-endian 16-bit PCM, with
/// the channel count and the sample rate that the container tells; two channels and 48,000
/// samples a second stand in for each that it does not tell.
pub proof fn law_first_pcm_is_heard(streams: Seq<StreamInfo>, audio: int)
    requires
        selection(streams) is Some,
        0 <= audio < streams.len(),
        streams[audio].codec@ == "pcm_s16le"@,
        forall|i: int| 0 <= i < audio ==> (#[trigger] streams[i]).codec@ != "pcm_s16le"@,
    ensures
        selection(streams)->0.audio_index == Some(streams[audio].index),
        streams[audio].channels matches Some(channels) ==> selection(streams)->0.audio_channels
            == channels,
        streams[audio].channels is None ==> selection(streams)->0.audio_channels == 2,
        streams[audio].sample_rate matches Some(rate) ==> selection(streams)->0.audio_rate == rate,
        streams[audio].sample_rate is None ==> selection(streams)->0.audio_rate == 48_000,
{
    law_first_index_is_first(streams, "pcm_s16le"@, 0);
    let found = first_index(streams, "pcm_s16le"@, 0)->0;
    if found < audio {
        assert(streams[found].codec@ != "pcm_s16le"@);
    }
    if audio < found {
        assert(streams[audio].codec@ != "pcm_s16le"@);
    }
}

/// Without a stream of little-endian 16-bit PCM, video is played without audio.
pub proof fn law_video_plays_without_audio(streams: Seq<StreamInfo>)
    requires
        selection(streams) is Some,
        forall|i: int| 0 <= i < streams.len() ==> (#[trigger] streams[i]).codec@ != "pcm_s16le"@,
    ensures
        selection(streams)->0.audio_index is None,
        selection(streams)->0.audio_channels == 2,
        selection(streams)->0.audio_rate == 48_000,
{
    law_first_index_is_first(streams, "pcm_s16le"@, 0);
}

/// Streams are selected exactly if one of them is AV1; then the selection is the one that the
/// first streams of either kind give.
pub proof fn law_streams_are_selected_iff_av1(
    streams: Vec<StreamInfo>,
    selected: Result<StreamSelection, StreamError>,
)
    requires
        call_ensures(select_streams, (&streams,), selected),
    ensures
        selected is Ok <==> exists|i: int|
            0 <= i < streams@.len() && (#[trigger] streams@[i]).codec@ == "av1"@,
        selected matches Ok(chosen) ==> selection(streams@) == Some(chosen),
{
    law_playable_iff_av1(streams@);
}

} // verus!
