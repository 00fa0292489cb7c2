use avif_converter::av1::collect_key_frames;
use avif_converter::error::{CodecStatus, Error};
use rav1e::prelude::{EncoderStatus, FrameType};

#[test]
fn key_frame_data_is_concatenated() {
    let packets = vec![
        (FrameType::KEY, vec![1u8, 2]),
        (FrameType::INTER, vec![3u8]),
        (FrameType::KEY, vec![4u8]),
    ];
    assert_eq!(collect_key_frames(packets, EncoderStatus::LimitReached), Ok(vec![1, 2, 4]));
    assert_eq!(collect_key_frames(Vec::new(), EncoderStatus::Encoded), Ok(Vec::new()));
}

#[test]
fn other_status_is_an_error() {
    let packets = vec![(FrameType::KEY, vec![1u8])];
    assert_eq!(
        collect_key_frames(packets, EncoderStatus::Failure),
        Err(Error::Codec(CodecStatus::Failure))
    );
    assert_eq!(
        collect_key_frames(Vec::new(), EncoderStatus::NeedMoreData),
        Err(Error::Codec(CodecStatus::NeedMoreData))
    );
}
