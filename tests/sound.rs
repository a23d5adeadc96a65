use simple_nus3audio::cache::{clean_plan, is_safe_name, CacheAction, DirEntryInfo, TargetState};
use simple_nus3audio::item::{
    extension_of_encoded, replace_source_of, valid_loop, AudioExtension, ListItem, ReplaceSource,
};
use simple_nus3audio::list::List;
use simple_nus3audio::pcm::PcmBuffer;
use simple_nus3audio::rect::Rect;
use simple_nus3audio::tools::{
    check_exit, decode_tool, loop_points_from_fields, loop_points_of_output, parse_metadata,
    vgaudio_cli_command, vgmstream_decode_command, vgmstream_metadata_command, DecodeTool,
    ToolConfig,
};
use simple_nus3audio::wavfile::{decode_wav, encode_wav};

fn config(codec: &str, prepath: &str, probe: &str, prefer_probe: bool) -> ToolConfig {
    ToolConfig {
        vgaudio_cli_path: codec.to_string(),
        vgaudio_cli_prepath: prepath.to_string(),
        vgmstream_path: probe.to_string(),
        prefer_vgmstream_decode: prefer_probe,
    }
}

fn stereo_wav(samples: Vec<i16>, rate: u32) -> Vec<u8> {
    encode_wav(&PcmBuffer::new(samples, 2, rate), None).ok().unwrap()
}

fn decoded_item(frames: usize) -> ListItem {
    let mut item = ListItem::new("song".to_string());
    let samples: Vec<i16> = (0..frames * 2).map(|i| i as i16).collect();
    item.set_audio_raw(vec![1, 2, 3], Ok(PcmBuffer::new(samples, 2, 48000))).unwrap();
    item
}

#[test]
fn extension_sniffing() {
    assert_eq!(extension_of_encoded(b"IDSP").ok(), Some(AudioExtension::Idsp));
    assert_eq!(extension_of_encoded(b"IDSPxxxxxx").ok(), Some(AudioExtension::Idsp));
    assert_eq!(extension_of_encoded(b"OPUS").ok(), Some(AudioExtension::Lopus));
    assert_eq!(extension_of_encoded(b"idsp").ok(), Some(AudioExtension::Lopus));
    assert_eq!(extension_of_encoded(&[0, 0, 0, 0, 0]).ok(), Some(AudioExtension::Lopus));
    assert_eq!(extension_of_encoded(b"IDS").err(), Some("Not a valid file".to_string()));
    assert!(extension_of_encoded(b"").is_err());
}

#[test]
fn extension_texts() {
    assert_eq!(AudioExtension::Idsp.to_text(), "idsp");
    assert_eq!(AudioExtension::Lopus.to_text(), "lopus");
    assert_eq!(AudioExtension::Bin.to_text(), "bin");
}

#[test]
fn new_item_is_empty() {
    let item = ListItem::new("a".to_string());
    assert_eq!(item.name, "a");
    assert_eq!(item.extension(), AudioExtension::Idsp);
    assert!(item.audio().is_none());
    assert!(item.bytes().is_none());
    assert_eq!(*item.loop_points(), None);
    assert_eq!(item.loop_end(), None);
    assert_eq!(item.loop_points_samples(), None);
    assert_eq!(item.length_in_samples(), 0);
    assert_eq!(item.sample_rate(), 12000);
    assert_eq!(item.channels(), 1);
    assert_eq!(item.label(), "a.idsp (Empty)");
}

#[test]
fn import_with_missing_tool_keeps_bytes_as_binary() {
    let mut encoded = b"IDSP".to_vec();
    encoded.extend_from_slice(&[0xde, 0xad, 0xbe, 0xef, 7, 7, 7]);
    let tools = config("", "", "", true);
    let decoded = decode_tool(&tools).map(|_| Vec::new());
    assert!(decoded.is_err());
    let mut item = ListItem::new("effect".to_string());
    assert!(item.from_encoded(encoded.clone(), decoded, None).is_ok());
    assert_eq!(item.extension(), AudioExtension::Bin);
    assert!(item.audio().is_none());
    assert_eq!(item.bytes(), Some(&encoded));
    assert_eq!(item.label(), "effect.bin (Could not decode)");
}

#[test]
fn import_of_short_bytes_is_refused() {
    let mut item = ListItem::new("x".to_string());
    assert!(item.from_encoded(vec![1, 2, 3], Ok(Vec::new()), None).is_err());
    assert_eq!(item.extension(), AudioExtension::Idsp);
    assert!(item.bytes().is_none());
}

#[test]
fn import_of_decoded_wav() {
    let encoded = b"IDSP and more".to_vec();
    let wav = stereo_wav(vec![1, 2, 3, 4, 5, 6], 24000);
    let mut item = ListItem::new("x".to_string());
    assert_eq!(item.from_encoded(encoded.clone(), Ok(wav), Some((1, 2))), Ok(None));
    assert_eq!(item.extension(), AudioExtension::Idsp);
    assert_eq!(item.audio(), Some(&vec![1, 2, 3, 4, 5, 6]));
    assert_eq!(item.channels(), 2);
    assert_eq!(item.sample_rate(), 24000);
    assert_eq!(item.length_in_samples(), 3);
    assert_eq!(item.bytes(), Some(&encoded));
    assert_eq!(*item.loop_points(), Some((1, 2)));
    assert_eq!(item.loop_points_samples(), Some((1i64, 2i64)));
    assert_eq!(item.label(), "x.idsp");
}

#[test]
fn import_drops_backward_loop_points() {
    let wav = stereo_wav(vec![0; 40], 48000);
    let mut item = ListItem::new("x".to_string());
    assert!(item.from_encoded(b"LOPUSDATA".to_vec(), Ok(wav), Some((10, 5))).is_ok());
    assert_eq!(item.extension(), AudioExtension::Lopus);
    assert_eq!(*item.loop_points(), None);
}

#[test]
fn import_of_unreadable_wav_reports_and_keeps_binary() {
    let mut item = ListItem::new("x".to_string());
    let r = item.from_encoded(b"IDSPxx".to_vec(), Ok(b"garbage".to_vec()), Some((1, 2)));
    assert!(r.unwrap().unwrap().starts_with("Error reading returned wav\n"));
    assert_eq!(item.extension(), AudioExtension::Bin);
    assert_eq!(item.bytes(), Some(&b"IDSPxx".to_vec()));
    assert_eq!(*item.loop_points(), None);
}

#[test]
fn replacing_audio_resamples_cd_audio_to_48k() {
    let frames = 44100;
    let samples: Vec<i16> = (0..frames * 2).map(|i| (i % 1000) as i16).collect();
    let mut item = ListItem::new("music".to_string());
    item.set_audio_raw(vec![0; 4], Ok(PcmBuffer::new(samples, 2, 44100))).unwrap();
    assert_eq!(item.sample_rate(), 48000);
    assert_eq!(item.channels(), 2);
    let expected = frames as f64 * 48000.0 / 44100.0;
    assert!((item.length_in_samples() as f64 - expected).abs() <= 1.0);
    assert_eq!(item.audio().unwrap().len(), item.length_in_samples() * 2);
}

#[test]
fn replacing_audio_clears_loop_and_cached_bytes() {
    let wav = stereo_wav(vec![0; 40], 48000);
    let mut item = ListItem::new("x".to_string());
    item.from_encoded(b"IDSPdata".to_vec(), Ok(wav), Some((2, 8))).unwrap();
    assert!(item.bytes().is_some());
    assert!(item.loop_points().is_some());
    item.set_audio_raw(vec![9], Ok(PcmBuffer::new(vec![1, 2, 3, 4], 1, 8000))).unwrap();
    assert!(item.bytes().is_none());
    assert_eq!(*item.loop_points(), None);
    assert_eq!(item.channels(), 1);
    assert_eq!(item.sample_rate(), 8000);
    assert_eq!(item.audio(), Some(&vec![1, 2, 3, 4]));
    assert_eq!(item.label(), "x.idsp (Not yet encoded)");
}

#[test]
fn undecodable_replacement_becomes_binary() {
    let mut item = decoded_item(4);
    item.set_audio_raw(vec![5, 5], Err("unknown format".to_string())).unwrap();
    assert_eq!(item.extension(), AudioExtension::Bin);
    assert!(item.audio().is_none());
    assert_eq!(item.bytes(), Some(&vec![5, 5]));
    assert_eq!(*item.loop_points(), None);
}

#[test]
fn binary_item_that_decodes_becomes_idsp() {
    let mut item = ListItem::new("x".to_string());
    item.set_audio_raw(vec![5], Err("no".to_string())).unwrap();
    item.set_audio_raw(vec![5], Ok(PcmBuffer::new(vec![1, 1], 2, 16000))).unwrap();
    assert_eq!(item.extension(), AudioExtension::Idsp);
}

#[test]
fn wide_layout_becomes_stereo() {
    let mut item = ListItem::new("x".to_string());
    let samples: Vec<i16> = vec![1, 2, 3, 4, 5, 6, 7, 8, 9, 10, 11, 12];
    item.set_audio_raw(vec![], Ok(PcmBuffer::new(samples, 6, 48000))).unwrap();
    assert_eq!(item.channels(), 2);
    assert_eq!(item.audio(), Some(&vec![1, 2, 7, 8]));
    assert_eq!(item.length_in_samples(), 2);
}

#[test]
fn export_cache_skips_the_encoder() {
    let mut item = decoded_item(8);
    let mut encoder_runs = 0;
    let mut export = |item: &mut ListItem| -> Vec<u8> {
        match item.cached_encoded(AudioExtension::Idsp).unwrap() {
            Some(bytes) => bytes,
            None => {
                encoder_runs += 1;
                let out = vec![0x49, 0x44, 0x53, 0x50, 1, 2, 3];
                item.store_encoded(AudioExtension::Idsp, out.clone());
                out
            },
        }
    };
    let first = export(&mut item);
    let second = export(&mut item);
    assert_eq!(first, second);
    assert_eq!(encoder_runs, 1);
}

#[test]
fn export_to_other_format_is_not_kept() {
    let mut item = decoded_item(8);
    assert_eq!(item.cached_encoded(AudioExtension::Lopus).unwrap(), None);
    item.store_encoded(AudioExtension::Lopus, vec![1, 2]);
    assert_eq!(item.cached_encoded(AudioExtension::Lopus).unwrap(), None);
    assert!(item.bytes().is_none());
}

#[test]
fn export_of_empty_item_fails() {
    let item = ListItem::new("x".to_string());
    assert_eq!(item.cached_encoded(AudioExtension::Idsp).unwrap_err(), "Audio of selected item is empty");
}

#[test]
fn export_of_binary_returns_its_bytes() {
    let mut item = ListItem::new("x".to_string());
    item.set_audio_raw(vec![7, 7], Err("no".to_string())).unwrap();
    assert_eq!(item.cached_encoded(AudioExtension::Lopus).unwrap(), Some(vec![7, 7]));
}

#[test]
fn audio_wav_truncates_to_loop_end() {
    let mut item = decoded_item(10);
    assert_eq!(item.apply_properties("song".to_string(), AudioExtension::Idsp, Some((1, 4))), Ok(true));
    let wav = item.get_audio_wav(item.loop_end()).unwrap();
    let back = decode_wav(&wav).ok().unwrap();
    assert_eq!(back.samples, (0..8).map(|i| i as i16).collect::<Vec<i16>>());
    assert_eq!(back.channel_count, 2);
}

#[test]
fn audio_wav_errors() {
    let empty = ListItem::new("x".to_string());
    assert_eq!(empty.get_audio_wav(None).unwrap_err(), "Selected item is empty");
    let mut binary = ListItem::new("x".to_string());
    binary.set_audio_raw(vec![1], Err("no".to_string())).unwrap();
    assert_eq!(binary.get_audio_wav(None).unwrap_err(), "Selected item could not be decoded");
}

#[test]
fn properties_change_invalidates_cache() {
    let mut item = decoded_item(4);
    item.store_encoded(AudioExtension::Idsp, vec![1]);
    assert!(item.bytes().is_some());
    assert_eq!(item.apply_properties("song".to_string(), AudioExtension::Idsp, None), Ok(false));
    assert!(item.bytes().is_some());
    assert_eq!(item.apply_properties("renamed".to_string(), AudioExtension::Idsp, None), Ok(true));
    assert!(item.bytes().is_none());
    assert_eq!(item.name, "renamed");
}

#[test]
fn properties_are_validated() {
    let mut item = decoded_item(4);
    assert!(item.apply_properties("song".to_string(), AudioExtension::Idsp, Some((5, 5))).is_err());
    assert!(item.apply_properties("song".to_string(), AudioExtension::Bin, None).is_err());
    let mut empty = ListItem::new("e".to_string());
    assert!(empty.apply_properties("e".to_string(), AudioExtension::Idsp, Some((0, 3))).is_err());
    assert_eq!(empty.apply_properties("e".to_string(), AudioExtension::Lopus, None), Ok(true));
    assert_eq!(empty.extension(), AudioExtension::Lopus);
}

#[test]
fn renaming_binary_keeps_its_data() {
    let mut item = ListItem::new("x".to_string());
    item.set_audio_raw(vec![3, 3], Err("no".to_string())).unwrap();
    assert_eq!(item.apply_properties("y".to_string(), AudioExtension::Bin, None), Ok(true));
    assert_eq!(item.bytes(), Some(&vec![3, 3]));
}

#[test]
fn clearing_bytes() {
    let mut item = decoded_item(2);
    item.store_encoded(AudioExtension::Idsp, vec![1]);
    item.clear_bytes();
    assert!(item.bytes().is_none());
}

#[test]
fn valid_loop_needs_forward_points() {
    assert_eq!(valid_loop(Some((10, 5))), None);
    assert_eq!(valid_loop(Some((5, 5))), None);
    assert_eq!(valid_loop(Some((5, 10))), Some((5, 10)));
    assert_eq!(valid_loop(None), None);
}

#[test]
fn decode_tool_policy() {
    assert_eq!(decode_tool(&config("c", "", "p", true)).ok(), Some(DecodeTool::Vgmstream));
    assert_eq!(decode_tool(&config("c", "", "p", false)).ok(), Some(DecodeTool::VgaudioCli));
    assert_eq!(decode_tool(&config("c", "", "", true)).ok(), Some(DecodeTool::VgaudioCli));
    assert_eq!(decode_tool(&config("", "", "p", false)).ok(), Some(DecodeTool::Vgmstream));
    assert_eq!(decode_tool(&config("", "", "", true)).err(), Some("VGAudioCli path is empty".to_string()));
    assert_eq!(decode_tool(&config("", "", "", false)).err(), Some("vgmstream path is empty".to_string()));
}

#[test]
fn codec_command_with_prepath_and_loop() {
    let cmd = vgaudio_cli_command(&config("VGAudioCli.exe", "mono", "", true), "a.wav", "a.lopus", Some((100, 2000))).ok().unwrap();
    assert_eq!(cmd.program, "mono");
    assert_eq!(
        cmd.args,
        vec!["VGAudioCli.exe", "-c", "a.wav", "a.lopus", "-l", "100-2000", "--cbr", "--opusheader", "namco"]
    );
}

#[test]
fn codec_command_plain() {
    let cmd = vgaudio_cli_command(&config("VGAudioCli", "", "", true), "s.idsp", "s.wav", None).ok().unwrap();
    assert_eq!(cmd.program, "VGAudioCli");
    assert_eq!(cmd.args, vec!["-c", "s.idsp", "s.wav"]);
    assert!(vgaudio_cli_command(&config("", "mono", "", true), "s", "d", None).is_err());
}

#[test]
fn probe_commands() {
    let c = config("", "", "vgmstream-cli", true);
    let decode = vgmstream_decode_command(&c, "x.idsp").ok().unwrap();
    assert_eq!(decode.program, "vgmstream-cli");
    assert_eq!(decode.args, vec!["-p", "x.idsp"]);
    let meta = vgmstream_metadata_command(&c, "x.idsp").ok().unwrap();
    assert_eq!(meta.args, vec!["-mI", "x.idsp"]);
    assert_eq!(vgmstream_decode_command(&config("a", "", "", true), "x").err(), Some("vgmstream path is empty".to_string()));
}

#[test]
fn exit_status_reports() {
    assert!(check_exit("vgmstream", Some(0), b"", b"").is_ok());
    assert_eq!(
        check_exit("vgmstream", None, b"", b"").unwrap_err(),
        "Attempted running vgmstream, didn't get any exit code"
    );
    assert_eq!(
        check_exit("VGAudioCli", Some(2), b"out text", b"").unwrap_err(),
        "Attempted running VGAudioCli, found exit code 2\nstdout is:\nout text\nstderr is empty"
    );
    assert_eq!(
        check_exit("VGAudioCli", Some(-1), b"", &[0xff, 0xfe]).unwrap_err(),
        "Attempted running VGAudioCli, found exit code -1\nstdout is empty\nstderr couldn't be read"
    );
}

#[test]
fn loop_metadata_parsing() {
    let good = br#"{"loopingInfo": {"start": 10, "end": 500}, "other": 1}"#;
    assert_eq!(loop_points_of_output(good), Some((10, 500)));
    let backward = br#"{"loopingInfo": {"start": 10, "end": 5}}"#;
    assert_eq!(loop_points_of_output(backward), None);
    let missing = br#"{"loopingInfo": {"start": 10}}"#;
    assert_eq!(loop_points_of_output(missing), None);
    let wrong_type = br#"{"loopingInfo": {"start": "10", "end": 20}}"#;
    assert_eq!(loop_points_of_output(wrong_type), None);
    let not_object = br#"{"loopingInfo": 3}"#;
    assert_eq!(loop_points_of_output(not_object), None);
    assert_eq!(loop_points_of_output(b"not json"), None);
    assert_eq!(loop_points_of_output(&[0xff]), None);
}

#[test]
fn metadata_errors_are_distinct() {
    assert!(parse_metadata(&[0xff]).unwrap_err().starts_with("Error reading vgmstream output"));
    assert!(parse_metadata(b"{").unwrap_err().starts_with("Error parsing vgmstream output"));
    assert!(parse_metadata(b"{}").is_ok());
}

#[test]
fn loop_fields() {
    assert_eq!(loop_points_from_fields(Some(10), Some(5)), None);
    assert_eq!(loop_points_from_fields(Some(1), Some(5)), Some((1, 5)));
    assert_eq!(loop_points_from_fields(None, Some(5)), None);
}

#[test]
fn number_and_text_formatting_in_reports() {
    let cmd = vgaudio_cli_command(&config("v", "", "", true), "a", "b", Some((0, 1234567))).ok().unwrap();
    assert_eq!(cmd.args[4], "0-1234567");
    assert_eq!(
        check_exit("t", Some(-42), "héllo".as_bytes(), &[0xc3]).unwrap_err(),
        "Attempted running t, found exit code -42\nstdout is:\nhéllo\nstderr couldn't be read"
    );
}

#[test]
fn safe_cache_names() {
    assert!(is_safe_name("bgm_stage.nus3audio"));
    assert!(!is_safe_name(""));
    assert!(!is_safe_name("."));
    assert!(!is_safe_name(".."));
    assert!(!is_safe_name("a/b"));
    assert!(!is_safe_name("/etc"));
    assert!(!is_safe_name("a\\b"));
    assert!(is_safe_name("..."));
}

fn describe(plan: &[CacheAction]) -> Vec<String> {
    plan.iter()
        .map(|a| match a {
            CacheAction::CreateDir => "create".to_string(),
            CacheAction::RemoveFile => "remove file".to_string(),
            CacheAction::RemoveEntry { name, is_dir } => format!("remove {} {}", name, is_dir),
        })
        .collect()
}

#[test]
fn cache_plan_cases() {
    assert_eq!(describe(&clean_plan(&TargetState::Missing)), vec!["create"]);
    assert_eq!(describe(&clean_plan(&TargetState::File)), vec!["remove file", "create"]);
    let listing = TargetState::Directory(vec![
        DirEntryInfo { name: "a.wav".to_string(), is_dir: false },
        DirEntryInfo { name: "sub".to_string(), is_dir: true },
    ]);
    assert_eq!(describe(&clean_plan(&listing)), vec!["remove a.wav false", "remove sub true"]);
}

#[test]
fn cache_plan_twice_is_empty() {
    assert!(clean_plan(&TargetState::Directory(Vec::new())).is_empty());
}

#[test]
fn list_editing() {
    let mut list = List::new();
    assert!(!list.modified);
    list.add_item(ListItem::new("a".to_string()));
    list.add_item(decoded_item(2));
    assert!(list.modified);
    assert_eq!(list.items.len(), 2);
    assert_eq!(list.get_label_of(0), Some("a.idsp (Empty)".to_string()));
    assert_eq!(list.get_label_of(1), Some("song.idsp (Not yet encoded)".to_string()));
    assert_eq!(list.get_label_of(2), None);
    list.remove(0);
    assert_eq!(list.items.len(), 1);
    assert_eq!(list.items[0].name, "song");
    list.clear();
    assert!(list.items.is_empty());
    assert!(!list.modified);
}

#[test]
fn container_ids_count_from_zero() {
    let mut list = List::new();
    list.add_item(ListItem::new("first".to_string()));
    list.add_item(ListItem::new("second".to_string()));
    let records = list.container_records(vec![vec![1], vec![2, 2]]);
    assert_eq!(records.len(), 2);
    assert_eq!((records[0].id, records[0].name.as_str(), records[0].data.clone()), (0, "first", vec![1]));
    assert_eq!((records[1].id, records[1].name.as_str(), records[1].data.clone()), (1, "second", vec![2, 2]));
}

#[test]
fn container_bytes_read_back() {
    let mut list = List::new();
    list.add_item(ListItem::new("one".to_string()));
    list.add_item(ListItem::new("two".to_string()));
    let bytes = list.container_bytes(vec![vec![1, 2, 3], vec![4, 5]]).unwrap();
    assert_eq!(&bytes[0..4], b"NUS3");
    let parsed = nus3audio::Nus3audioFile::try_from_bytes(&bytes).unwrap();
    assert_eq!(parsed.files.len(), 2);
    assert_eq!(parsed.files[0].name, "one");
    assert_eq!(parsed.files[1].id, 1);
    assert_eq!(parsed.files[1].data, vec![4, 5]);
}

#[test]
fn rect_bumps() {
    let mut r = Rect { x: 0, y: 0, width: 100, height: 50 };
    r.x_bump(10);
    assert_eq!((r.x, r.width), (10, 90));
    r.y_bump(5);
    assert_eq!((r.y, r.height), (5, 45));
    assert_eq!(r.x_consume(20), 20);
    assert_eq!((r.x, r.width), (30, 70));
    assert_eq!(r.y_consume(15), 15);
    assert_eq!((r.y, r.height, r.x, r.width), (20, 30, 30, 70));
}

#[test]
fn audio_at_allowed_rate_is_kept_as_decoded() {
    let mut item = ListItem::new("x".to_string());
    item.set_audio_raw(vec![1], Ok(PcmBuffer::new(vec![0i16; 800], 1, 8000))).unwrap();
    assert_eq!(item.sample_rate(), 8000);
    assert_eq!(item.channels(), 1);
    assert_eq!(item.audio(), Some(&vec![0i16; 800]));
    assert_eq!(item.length_in_samples(), 800);
}

#[test]
fn replace_route_by_extension() {
    assert_eq!(replace_source_of("idsp"), ReplaceSource::Encoded);
    assert_eq!(replace_source_of("lopus"), ReplaceSource::Encoded);
    assert_eq!(replace_source_of("ogg"), ReplaceSource::Audio);
    assert_eq!(replace_source_of(""), ReplaceSource::Audio);
}

#[test]
fn loop_from_metadata_keeps_bytes_when_unchanged() {
    let wav = stereo_wav(vec![0; 40], 48000);
    let mut item = ListItem::new("x".to_string());
    item.from_encoded(b"IDSPdata".to_vec(), Ok(wav), Some((2, 8))).unwrap();
    item.set_loop_from_metadata(Some((2, 8)));
    assert!(item.bytes().is_some());
    item.set_loop_from_metadata(Some((9, 3)));
    assert_eq!(*item.loop_points(), None);
    assert!(item.bytes().is_none());
    let mut empty = ListItem::new("e".to_string());
    empty.set_loop_from_metadata(Some((1, 2)));
    assert_eq!(*empty.loop_points(), None);
}

#[test]
fn metadata_messages() {
    assert_eq!(parse_metadata(&[0xff]).err(), Some("Error reading vgmstream output\nthe output is not UTF-8".to_string()));
    let fields = parse_metadata(br#"{"loopingInfo": {"start": 3, "end": 7}}"#).ok().unwrap();
    assert!(fields.is_object);
    assert_eq!((fields.first, fields.second), (Some(3), Some(7)));
}

#[test]
fn unusable_decoded_rate_becomes_binary() {
    let mut item = ListItem::new("x".to_string());
    item.set_audio_raw(vec![4, 4], Ok(PcmBuffer::new(vec![0; 4], 1, 4_294_967_295))).unwrap();
    assert_eq!(item.extension(), AudioExtension::Bin);
    assert_eq!(item.bytes(), Some(&vec![4, 4]));
}

#[test]
fn overlong_metadata_is_not_parsed() {
    let mut text = "0.".to_string();
    text.push_str(&"0".repeat(40000));
    assert_eq!(
        parse_metadata(text.as_bytes()).err(),
        Some("Error parsing vgmstream output\nthe output is too long".to_string())
    );
    assert_eq!(loop_points_of_output(text.as_bytes()), None);
}

#[test]
fn exported_wav_reads_back() {
    let item = decoded_item(5);
    let wav = item.get_audio_wav(None).unwrap();
    let back = decode_wav(&wav).ok().unwrap();
    assert_eq!(back.samples, (0..10).map(|i| i as i16).collect::<Vec<i16>>());
}
