use spotty::alternate_player::Polled;
use spotty::oggdirect::{
    bytes_per_second, copy, download, find_available_alternative, is_playable, preferred_formats,
    select_file, AudioItem, Bitrate, CopyAction, CopyInput, CopyStep, DownloadAction,
    DownloadEvent, DownloadStage, FileFormat, FileId, OggDirectInternal, OggInput, OggSource,
    OggStep, Signal, BUFFER_SIZE, READ_TIMEOUT_SECONDS, SPOTIFY_TRACK_HEADER_SIZE,
};
use spotty::spotify_id::{SpotifyAudioType, SpotifyId};

fn file(n: u8) -> FileId {
    FileId { bytes: [n; 20] }
}

fn track(id: u128) -> SpotifyId {
    SpotifyId { id, audio_type: SpotifyAudioType::Track }
}

fn item(uri: &str, available: bool, files: Vec<(FileFormat, FileId)>) -> AudioItem {
    AudioItem {
        uri: uri.to_string(),
        name: "name".to_string(),
        files,
        available,
        alternatives: None,
    }
}

fn vorbis(uri: &str, available: bool) -> AudioItem {
    item(uri, available, vec![(FileFormat::OGG_VORBIS_160, file(1))])
}

#[test]
fn constants() {
    assert_eq!(READ_TIMEOUT_SECONDS, 30);
    assert_eq!(SPOTIFY_TRACK_HEADER_SIZE, 167);
    assert_eq!(BUFFER_SIZE, 65536);
}

#[test]
fn formats_by_bitrate() {
    assert_eq!(
        preferred_formats(Bitrate::Bitrate96),
        [FileFormat::OGG_VORBIS_96, FileFormat::OGG_VORBIS_160, FileFormat::OGG_VORBIS_320]
    );
    assert_eq!(
        preferred_formats(Bitrate::Bitrate160),
        [FileFormat::OGG_VORBIS_160, FileFormat::OGG_VORBIS_96, FileFormat::OGG_VORBIS_320]
    );
    assert_eq!(
        preferred_formats(Bitrate::Bitrate320),
        [FileFormat::OGG_VORBIS_320, FileFormat::OGG_VORBIS_160, FileFormat::OGG_VORBIS_96]
    );
}

#[test]
fn the_wanted_bitrate_is_chosen() {
    let files = vec![
        (FileFormat::MP3_320, file(9)),
        (FileFormat::OGG_VORBIS_96, file(1)),
        (FileFormat::OGG_VORBIS_160, file(2)),
        (FileFormat::OGG_VORBIS_320, file(3)),
    ];
    assert_eq!(
        select_file(&files, Bitrate::Bitrate96),
        Some((FileFormat::OGG_VORBIS_96, file(1)))
    );
    assert_eq!(
        select_file(&files, Bitrate::Bitrate160),
        Some((FileFormat::OGG_VORBIS_160, file(2)))
    );
    assert_eq!(
        select_file(&files, Bitrate::Bitrate320),
        Some((FileFormat::OGG_VORBIS_320, file(3)))
    );
}

#[test]
fn any_vorbis_file_will_do() {
    for format in [
        FileFormat::OGG_VORBIS_96,
        FileFormat::OGG_VORBIS_160,
        FileFormat::OGG_VORBIS_320,
    ] {
        for bitrate in [Bitrate::Bitrate96, Bitrate::Bitrate160, Bitrate::Bitrate320] {
            let files = vec![(FileFormat::MP3_96, file(9)), (format, file(1))];
            assert_eq!(select_file(&files, bitrate), Some((format, file(1))));
        }
    }
    assert_eq!(select_file(&vec![(FileFormat::MP3_96, file(9))], Bitrate::Bitrate96), None);
    assert_eq!(select_file(&vec![], Bitrate::Bitrate96), None);
}

#[test]
fn data_rates() {
    assert_eq!(bytes_per_second(FileFormat::OGG_VORBIS_96), 12288);
    assert_eq!(bytes_per_second(FileFormat::OGG_VORBIS_160), 20480);
    assert_eq!(bytes_per_second(FileFormat::OGG_VORBIS_320), 40960);
    assert_eq!(bytes_per_second(FileFormat::MP3_256), 32768);
    assert_eq!(bytes_per_second(FileFormat::MP3_320), 40960);
    assert_eq!(bytes_per_second(FileFormat::MP3_160), 20480);
    assert_eq!(bytes_per_second(FileFormat::MP3_96), 12288);
    assert_eq!(bytes_per_second(FileFormat::MP3_160_ENC), 20480);
    assert_eq!(bytes_per_second(FileFormat::MP4_128_DUAL), 16384);
    assert_eq!(bytes_per_second(FileFormat::OTHER3), 40960);
    assert_eq!(bytes_per_second(FileFormat::AAC_160), 20480);
    assert_eq!(bytes_per_second(FileFormat::AAC_320), 40960);
    assert_eq!(bytes_per_second(FileFormat::MP4_128), 16384);
    assert_eq!(bytes_per_second(FileFormat::OTHER5), 40960);
}

#[test]
fn an_available_item_is_played_itself() {
    let mut audio = vorbis("a", true);
    audio.alternatives = Some(vec![track(2)]);
    let alternatives = vec![vorbis("b", true)];
    assert_eq!(find_available_alternative(&audio, &alternatives).unwrap().uri, "a");
}

#[test]
fn the_first_available_alternative_is_played() {
    let mut audio = vorbis("a", false);
    audio.alternatives = Some(vec![track(2), track(3), track(4)]);
    let alternatives = vec![vorbis("b", false), vorbis("c", true), vorbis("d", true)];
    assert_eq!(find_available_alternative(&audio, &alternatives).unwrap().uri, "c");
    let alternatives = vec![vorbis("b", false)];
    assert!(find_available_alternative(&audio, &alternatives).is_none());
    assert!(find_available_alternative(&audio, &vec![]).is_none());
    audio.alternatives = None;
    assert!(find_available_alternative(&audio, &vec![vorbis("c", true)]).is_none());
}

fn given_up(next: (DownloadStage, DownloadAction)) -> String {
    assert!(matches!(next.0, DownloadStage::Finished));
    match next.1 {
        DownloadAction::GiveUp(message) => message,
        _ => panic!("not given up"),
    }
}

#[test]
fn a_download_from_start_to_end() {
    let event = DownloadEvent::Item(Some(vorbis("a", true)));
    assert!(is_playable(&DownloadStage::Item, &event, Bitrate::Bitrate320));
    let (stage, action) = download(DownloadStage::Item, event, track(7), Bitrate::Bitrate320);
    match action {
        DownloadAction::OpenFile {
            spotify_id,
            file_id,
            bytes_per_second,
            play_from_beginning,
        } => {
            assert_eq!(spotify_id, track(7));
            assert_eq!(file_id, file(1));
            assert_eq!(bytes_per_second, 20480);
            assert!(play_from_beginning);
        }
        _ => panic!("not opened"),
    }
    assert!(matches!(stage, DownloadStage::File));
    let (stage, action) =
        download(stage, DownloadEvent::File(true), track(7), Bitrate::Bitrate320);
    assert!(matches!(action, DownloadAction::AwaitKey));
    assert!(matches!(stage, DownloadStage::Key));
    let (stage, action) = download(stage, DownloadEvent::Key(true), track(7), Bitrate::Bitrate320);
    assert!(matches!(action, DownloadAction::Stream { offset: 167 }));
    assert!(matches!(stage, DownloadStage::Finished));
}

#[test]
fn a_download_of_an_alternative_keeps_its_identifier() {
    let mut audio = vorbis("a", false);
    audio.alternatives = Some(vec![track(2), track(3)]);
    let event = DownloadEvent::Item(Some(audio));
    let (stage, action) = download(DownloadStage::Item, event, track(1), Bitrate::Bitrate160);
    match action {
        DownloadAction::FetchAlternatives(ids) => assert_eq!(ids, vec![track(2), track(3)]),
        _ => panic!("no alternatives"),
    }
    let event = DownloadEvent::Alternatives(vec![vorbis("b", false), vorbis("c", true)]);
    assert!(is_playable(&stage, &event, Bitrate::Bitrate160));
    let (_, action) = download(stage, event, track(1), Bitrate::Bitrate160);
    match action {
        DownloadAction::OpenFile { spotify_id, .. } => assert_eq!(spotify_id, track(1)),
        _ => panic!("not opened"),
    }
}

#[test]
fn downloads_that_give_up() {
    let bitrate = Bitrate::Bitrate320;
    let id = track(1);
    assert_eq!(
        given_up(download(DownloadStage::Item, DownloadEvent::Item(None), id, bitrate)),
        "Unable to load audio item."
    );
    let event = DownloadEvent::Item(Some(vorbis("spotify:episode:x", false)));
    assert_eq!(
        given_up(download(DownloadStage::Item, event, id, bitrate)),
        "<spotify:episode:x> is not available"
    );
    let stage = DownloadStage::Alternatives {
        audio: AudioItem { alternatives: Some(vec![]), ..vorbis("spotify:track:x", false) },
    };
    assert_eq!(
        given_up(download(stage, DownloadEvent::Alternatives(vec![]), id, bitrate)),
        "<spotify:track:x> is not available"
    );
    assert_eq!(
        given_up(download(DownloadStage::File, DownloadEvent::File(false), id, bitrate)),
        "Unable to load encrypted file."
    );
    assert_eq!(
        given_up(download(DownloadStage::Key, DownloadEvent::Key(false), id, bitrate)),
        "Unable to load decryption key"
    );
}

#[test]
fn items_without_vorbis_are_not_playable() {
    let audio = item("a", true, vec![(FileFormat::MP3_320, file(1))]);
    let event = DownloadEvent::Item(Some(audio));
    assert!(!is_playable(&DownloadStage::Item, &event, Bitrate::Bitrate96));
    let stage = DownloadStage::Alternatives {
        audio: AudioItem { alternatives: Some(vec![track(2)]), ..vorbis("x", false) },
    };
    let event = DownloadEvent::Alternatives(vec![item("a", true, vec![])]);
    assert!(!is_playable(&stage, &event, Bitrate::Bitrate96));
    // What is not available is not looked at.
    let event = DownloadEvent::Item(Some(item("a", false, vec![])));
    assert!(is_playable(&DownloadStage::Item, &event, Bitrate::Bitrate96));
}

#[test]
fn copying_step_by_step() {
    let alive = CopyStep { signal: Some(Signal::Alive), action: CopyAction::Read };
    let done = CopyStep { signal: Some(Signal::Done), action: CopyAction::Stop };
    let error = CopyStep { signal: Some(Signal::Error), action: CopyAction::Stop };
    assert_eq!(copy(CopyInput::Start), alive);
    assert_eq!(
        copy(CopyInput::Read(Some(10))),
        CopyStep { signal: None, action: CopyAction::Write { len: 10 } }
    );
    assert_eq!(copy(CopyInput::Read(Some(0))), done);
    assert_eq!(copy(CopyInput::Read(None)), error);
    assert_eq!(
        copy(CopyInput::Written(true)),
        CopyStep { signal: None, action: CopyAction::Flush }
    );
    assert_eq!(copy(CopyInput::Written(false)), error);
    assert_eq!(copy(CopyInput::Flushed(true)), alive);
    assert_eq!(copy(CopyInput::Flushed(false)), error);
}

#[test]
fn all_that_is_read_is_written() {
    let mut reads = vec![65536, 1, 30000, 0].into_iter();
    let (mut read, mut written) = (0, 0);
    let mut signals = Vec::new();
    let mut input = CopyInput::Start;
    loop {
        let step = copy(input);
        signals.extend(step.signal);
        input = match step.action {
            CopyAction::Read => {
                assert_eq!(read, written);
                let len = reads.next().unwrap();
                read += len;
                CopyInput::Read(Some(len))
            }
            CopyAction::Write { len } => {
                written += len;
                CopyInput::Written(true)
            }
            CopyAction::Flush => CopyInput::Flushed(true),
            CopyAction::Stop => break,
        };
    }
    assert_eq!(written, 95537);
    assert_eq!(
        signals,
        vec![Signal::Alive, Signal::Alive, Signal::Alive, Signal::Alive, Signal::Done]
    );
}

/// Copies `data` in reads of `len` bytes. The step with the number `failing`, counted
/// from 0, fails; a write that fails has written half of its bytes.
fn copied(data: &[u8], len: usize, failing: usize) -> (Vec<u8>, Option<Signal>) {
    let mut written = Vec::new();
    let mut buffer: &[u8] = &[];
    let mut rest = data;
    let mut input = CopyInput::Start;
    let mut signal = None;
    for number in 0.. {
        let step = copy(input);
        signal = step.signal;
        let fails = number == failing;
        input = match step.action {
            CopyAction::Read if fails => CopyInput::Read(None),
            CopyAction::Read => {
                let (head, tail) = rest.split_at(len.min(rest.len()));
                buffer = head;
                rest = tail;
                CopyInput::Read(Some(head.len()))
            }
            CopyAction::Write { len } => {
                written.extend_from_slice(&buffer[0..if fails { len / 2 } else { len }]);
                CopyInput::Written(!fails)
            }
            CopyAction::Flush => CopyInput::Flushed(!fails),
            CopyAction::Stop => break,
        };
        if fails {
            assert_eq!(
                copy(input),
                CopyStep { signal: Some(Signal::Error), action: CopyAction::Stop }
            );
        }
    }
    (written, signal)
}

#[test]
fn a_copy_that_is_cut_short_is_a_prefix() {
    let data: Vec<u8> = (0..25).collect();
    // Reads at 0, 3, 6 and 9, writes at 1, 4 and 7, flushes at 2, 5 and 8.
    let lengths = vec![0, 5, 10, 10, 15, 20, 20, 22, 25, 25];
    for (failing, length) in lengths.into_iter().enumerate() {
        let (written, signal) = copied(&data, 10, failing);
        assert_eq!(written, data[0..length].to_vec());
        assert_eq!(signal, Some(Signal::Error));
    }
    assert_eq!(copied(&data, 10, 99), (data, Some(Signal::Done)));
}

#[test]
fn waiting_for_the_end() {
    let mut internal = OggDirectInternal::new();
    assert_eq!(internal.source, OggSource::ReadTimeout);
    assert_eq!(internal.poll(OggInput::ReadTimeout(false)), OggStep::Poll);
    assert_eq!(internal.source, OggSource::CtrlC);
    assert_eq!(internal.poll(OggInput::CtrlC(Polled::NotReady)), OggStep::Poll);
    assert_eq!(internal.source, OggSource::ThreadComm);
    let alive = OggInput::ThreadComm(Polled::Item(Signal::Alive));
    assert_eq!(internal.poll(alive), OggStep::ResetTimeout { seconds: 30 });
    assert_eq!(internal.source, OggSource::ReadTimeout);
    internal.poll(OggInput::ReadTimeout(false));
    assert_eq!(internal.poll(OggInput::CtrlC(Polled::Closed)), OggStep::Poll);
    assert_eq!(internal.poll(OggInput::ThreadComm(Polled::NotReady)), OggStep::NotReady);
    internal.poll(OggInput::ReadTimeout(false));
    internal.poll(OggInput::CtrlC(Polled::NotReady));
    let done = OggInput::ThreadComm(Polled::Item(Signal::Done));
    assert_eq!(internal.poll(done), OggStep::Finished { timed_out: false });
}

#[test]
fn other_ends() {
    let over = OggStep::Finished { timed_out: false };
    assert_eq!(
        OggDirectInternal::new().poll(OggInput::ReadTimeout(true)),
        OggStep::Finished { timed_out: true }
    );
    let mut internal = OggDirectInternal { source: OggSource::CtrlC };
    assert_eq!(internal.poll(OggInput::CtrlC(Polled::Item(()))), over);
    let mut internal = OggDirectInternal { source: OggSource::ThreadComm };
    assert_eq!(internal.poll(OggInput::ThreadComm(Polled::Item(Signal::Error))), over);
    // A thread that is gone without a word is waited for until the time is up.
    let mut internal = OggDirectInternal { source: OggSource::ThreadComm };
    assert_eq!(internal.poll(OggInput::ThreadComm(Polled::Closed)), OggStep::NotReady);
}
