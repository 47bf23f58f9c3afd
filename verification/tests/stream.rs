use av1_player::stream::{select_streams, StreamError, StreamInfo, StreamSelection, TimeBase};

fn stream(index: u32, codec: &str) -> StreamInfo {
    StreamInfo {
        index,
        codec: codec.to_string(),
        time_base: TimeBase { num: 1, den: 1_000 + index as i64 },
        channels: None,
        sample_rate: None,
    }
}

#[test]
fn first_streams_are_selected() {
    let mut audio = stream(4, "pcm_s16le");
    audio.channels = Some(6);
    audio.sample_rate = Some(96_000);
    let streams = vec![stream(1, "opus"), stream(2, "av1"), stream(3, "av1"), audio, stream(5, "pcm_s16le")];
    assert_eq!(
        select_streams(&streams),
        Ok(StreamSelection {
            video_index: 2,
            video_time_base: TimeBase { num: 1, den: 1_002 },
            audio_index: Some(4),
            audio_channels: 6,
            audio_rate: 96_000,
        })
    );
}

#[test]
fn unknown_audio_parameters_have_defaults() {
    let selected = select_streams(&vec![stream(7, "pcm_s16le"), stream(8, "av1")]).unwrap();
    assert_eq!(selected.audio_index, Some(7));
    assert_eq!(selected.audio_channels, 2);
    assert_eq!(selected.audio_rate, 48_000);
}

#[test]
fn audio_is_optional() {
    let selected = select_streams(&vec![stream(0, "av1"), stream(1, "pcm_s16be")]).unwrap();
    assert_eq!(selected.video_index, 0);
    assert_eq!(selected.audio_index, None);
}

#[test]
fn video_is_required() {
    assert_eq!(select_streams(&vec![stream(0, "AV1"), stream(1, "pcm_s16le")]), Err(StreamError::VideoStreamNotFound));
    assert_eq!(select_streams(&vec![]), Err(StreamError::VideoStreamNotFound));
    assert_eq!(StreamError::VideoStreamNotFound.message(), "AV1 video stream not found");
}
