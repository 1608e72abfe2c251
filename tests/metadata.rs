use opusfile::tags::{parse_comment, split_comment};
use opusfile::{NativeHead, NativeTags, OpusHead, OpusTags};

fn stereo_head() -> NativeHead {
    let mut mapping = [0u8; 255];
    mapping[0] = 0;
    mapping[1] = 1;
    mapping[2] = 7;
    NativeHead {
        version: 1,
        channel_count: 2,
        pre_skip: 356,
        input_sample_rate: 44100,
        output_gain: 0,
        mapping_family: 0,
        stream_count: 1,
        coupled_count: 1,
        mapping,
    }
}

fn comment_block() -> NativeTags {
    let comments = [
        "ALBUM=Goldberg Variations, BWV 988",
        "ARTIST=Johann Sebastian Bach",
        "DESCRIPTION=From the Musopen Collection",
        "ENCODER=opusenc from opus-tools 0.1.9",
        "ENCODER_OPTIONS=--bitrate 48",
        "GENRE=Classical",
        "TITLE=Variation 4",
        "TRACKNUMBER=05",
        "TRACKTOTAL=31",
    ];
    NativeTags {
        comments: comments.iter().map(|c| c.as_bytes().to_vec()).collect(),
        vendor: b"libopus 1.1".to_vec(),
    }
}

#[test]
fn header() {
    let head = OpusHead::from_native(&stereo_head());

    assert_eq!(head.mapping, vec![0, 1]);
    assert_eq!(head.version, 1);
    assert_eq!(head.pre_skip, 356);
    assert_eq!(head.input_sample_rate, 44100);
    assert_eq!(head.output_gain, 0);
    assert_eq!(head.mapping_family, 0);
    assert_eq!(head.channel_count, 2);
    assert_eq!(head.stream_count, 1);
    assert_eq!(head.coupled_count, 1);
}

#[test]
fn tags() {
    let tags = OpusTags::from_native(&comment_block());

    assert_eq!(tags.user_comments.len(), 9);
    for &(ref tag, ref data) in tags.user_comments.iter() {
        let tag: &str = tag;
        match &*tag {
            "ALBUM" => assert_eq!(data, "Goldberg Variations, BWV 988"),
            "ARTIST" => assert_eq!(data, "Johann Sebastian Bach"),
            "DESCRIPTION" => assert_eq!(data, "From the Musopen Collection"),
            "ENCODER" => assert_eq!(data, "opusenc from opus-tools 0.1.9"),
            "ENCODER_OPTIONS" => assert_eq!(data, "--bitrate 48"),
            "GENRE" => assert_eq!(data, "Classical"),
            "TITLE" => assert_eq!(data, "Variation 4"),
            "TRACKNUMBER" => assert_eq!(data, "05"),
            "TRACKTOTAL" => assert_eq!(data, "31"),
            _ => panic!("Unexpected tag"),
        }
    }
}

#[test]
fn tags_keep_engine_order_and_vendor() {
    let tags = OpusTags::from_native(&comment_block());
    let keys: Vec<&str> = tags.user_comments.iter().map(|p| p.0.as_str()).collect();
    assert_eq!(
        keys,
        vec![
            "ALBUM",
            "ARTIST",
            "DESCRIPTION",
            "ENCODER",
            "ENCODER_OPTIONS",
            "GENRE",
            "TITLE",
            "TRACKNUMBER",
            "TRACKTOTAL"
        ]
    );
    assert_eq!(tags.user_comments[0].1, "Goldberg Variations, BWV 988");
    assert_eq!(tags.user_comments[8], ("TRACKTOTAL".to_string(), "31".to_string()));
    assert_eq!(tags.vendor, "libopus 1.1");
}

#[test]
fn mapping_length_follows_stream_counts() {
    let mut native = stereo_head();
    native.channel_count = 6;
    native.mapping_family = 1;
    native.stream_count = 4;
    native.coupled_count = 2;
    for i in 0..255 {
        native.mapping[i] = i as u8;
    }
    let head = OpusHead::from_native(&native);
    assert_eq!(head.mapping, vec![0, 1, 2, 3, 4, 5]);
    assert_eq!(head.mapping.len(), 2 * 2 + (4 - 2));
    assert_eq!(head.channel_count, 6);
}

#[test]
fn mapping_of_largest_size() {
    let mut native = stereo_head();
    native.stream_count = 255;
    native.coupled_count = 0;
    native.mapping = [9u8; 255];
    assert!(native.is_consistent());
    let head = OpusHead::from_native(&native);
    assert_eq!(head.mapping.len(), 255);
    assert!(head.mapping.iter().all(|&m| m == 9));
}

#[test]
fn inconsistent_stream_counts_are_detected() {
    let mut native = stereo_head();
    native.stream_count = 1;
    native.coupled_count = 2;
    assert!(!native.is_consistent());
    native.stream_count = 200;
    native.coupled_count = 100;
    assert!(!native.is_consistent());
    native.coupled_count = 55;
    assert!(native.is_consistent());
}

#[test]
fn comment_without_separator_is_dropped() {
    let block = NativeTags {
        comments: vec![
            b"TITLE=Aria".to_vec(),
            b"no separator here".to_vec(),
            b"".to_vec(),
            b"GENRE=Baroque".to_vec(),
        ],
        vendor: Vec::new(),
    };
    let tags = OpusTags::from_native(&block);
    assert_eq!(
        tags.user_comments,
        vec![
            ("TITLE".to_string(), "Aria".to_string()),
            ("GENRE".to_string(), "Baroque".to_string())
        ]
    );
    assert_eq!(tags.vendor, "");
}

#[test]
fn duplicate_keys_are_kept() {
    let block = NativeTags {
        comments: vec![b"artist=Bach".to_vec(), b"ARTIST=Gould".to_vec()],
        vendor: b"v".to_vec(),
    };
    let tags = OpusTags::from_native(&block);
    assert_eq!(
        tags.user_comments,
        vec![
            ("ARTIST".to_string(), "Bach".to_string()),
            ("ARTIST".to_string(), "Gould".to_string())
        ]
    );
}

#[test]
fn key_is_upper_cased_and_value_kept() {
    let p = parse_comment(b"Album=Goldberg Variations");
    assert_eq!(p, Some(("ALBUM".to_string(), "Goldberg Variations".to_string())));
}

#[test]
fn split_is_at_first_separator() {
    assert_eq!(split_comment(b"a=b=c"), Some((b"a".to_vec(), b"b=c".to_vec())));
    assert_eq!(split_comment(b"=x"), Some((Vec::new(), b"x".to_vec())));
    assert_eq!(split_comment(b"k="), Some((b"k".to_vec(), Vec::new())));
    assert_eq!(split_comment(b"none"), None);
    assert_eq!(parse_comment(b"a=b=c"), Some(("A".to_string(), "b=c".to_string())));
}

#[test]
fn invalid_bytes_are_replaced() {
    let p = parse_comment(&[b'k', 0xff, b'=', b'v', 0xc3]);
    assert_eq!(p, Some(("K\u{FFFD}".to_string(), "v\u{FFFD}".to_string())));
    let block = NativeTags { comments: Vec::new(), vendor: vec![b'x', 0xfe] };
    assert_eq!(OpusTags::from_native(&block).vendor, "x\u{FFFD}");
}

#[test]
fn non_ascii_keys_are_upper_cased() {
    let p = parse_comment("größe=ü".as_bytes());
    assert_eq!(p, Some(("GRÖSSE".to_string(), "ü".to_string())));
}
