//! Downloads a track and writes it out as it is, an Ogg stream.
use crate::alternate_player::Polled;
use crate::spotify_id::SpotifyId;
use vstd::prelude::*;
use vstd::string::*;

verus! {

/// After how many seconds without data to give up, for example when the network
/// cable is unplugged.
pub const READ_TIMEOUT_SECONDS: u64 = 30;

/// How many bytes stand before the Ogg stream.
pub const SPOTIFY_TRACK_HEADER_SIZE: u64 = 0xa7;

/// How many bytes are read at once. The capacity of a pipe varies across systems.
pub const BUFFER_SIZE: usize = 64 * 1024;

/// The quality that is asked for.
#[derive(Clone, Copy, Debug, PartialEq, Eq, Structural)]
pub enum Bitrate {
    Bitrate96,
    Bitrate160,
    Bitrate320,
}

/// The formats that files come in.
#[allow(non_camel_case_types)]
#[derive(Clone, Copy, Debug, PartialEq, Eq, Structural)]
pub enum FileFormat {
    OGG_VORBIS_96,
    OGG_VORBIS_160,
    OGG_VORBIS_320,
    MP3_256,
    MP3_320,
    MP3_160,
    MP3_96,
    MP3_160_ENC,
    MP4_128_DUAL,
    OTHER3,
    AAC_160,
    AAC_320,
    MP4_128,
    OTHER5,
}

/// The identifier of a file.
#[derive(Clone, Copy, Debug, PartialEq, Eq)]
pub struct FileId {
    pub bytes: [u8; 20],
}

/// A track or an episode.
pub struct AudioItem {
    pub uri: String,
    pub name: String,
    /// Its files, one for each format that it comes in.
    pub files: Vec<(FileFormat, FileId)>,
    pub available: bool,
    /// What may be played in its place.
    pub alternatives: Option<Vec<SpotifyId>>,
}

impl AudioItem {
    /// No format has two files.
    pub open spec fn wf(self) -> bool {
        forall|i: int, j: int|
            0 <= i < j < self.files@.len() ==> #[trigger] self.files@[i].0
                != #[trigger] self.files@[j].0
    }
}

/// The file of `format`.
pub open spec fn file_of(files: Seq<(FileFormat, FileId)>, format: FileFormat) -> Option<FileId>
    decreases files.len(),
{
    if files.len() == 0 {
        None
    } else if files[0].0 == format {
        Some(files[0].1)
    } else {
        file_of(files.drop_first(), format)
    }
}

/// The formats that will do for `bitrate`, the best one first. Most podcasts seem
/// to come with 96 kbit/s only, so that is always one of them.
pub open spec fn preference(bitrate: Bitrate) -> Seq<FileFormat> {
    match bitrate {
        Bitrate::Bitrate96 => seq![
            FileFormat::OGG_VORBIS_96,
            FileFormat::OGG_VORBIS_160,
            FileFormat::OGG_VORBIS_320,
        ],
        Bitrate::Bitrate160 => seq![
            FileFormat::OGG_VORBIS_160,
            FileFormat::OGG_VORBIS_96,
            FileFormat::OGG_VORBIS_320,
        ],
        Bitrate::Bitrate320 => seq![
            FileFormat::OGG_VORBIS_320,
            FileFormat::OGG_VORBIS_160,
            FileFormat::OGG_VORBIS_96,
        ],
    }
}

/// The first of `formats` that there is a file of, and that file.
pub open spec fn first_file(
    formats: Seq<FileFormat>,
    files: Seq<(FileFormat, FileId)>,
) -> Option<(FileFormat, FileId)>
    decreases formats.len(),
{
    if formats.len() == 0 {
        None
    } else {
        match file_of(files, formats[0]) {
            Some(file_id) => Some((formats[0], file_id)),
            None => first_file(formats.drop_first(), files),
        }
    }
}

/// How many kbit a second of `format` takes. Of an unknown format some high guess
/// is better than nothing.
pub open spec fn kbits(format: FileFormat) -> nat {
    match format {
        FileFormat::OGG_VORBIS_96 | FileFormat::MP3_96 => 96,
        FileFormat::MP4_128_DUAL | FileFormat::MP4_128 => 128,
        FileFormat::OGG_VORBIS_160 | FileFormat::MP3_160 | FileFormat::MP3_160_ENC
        | FileFormat::AAC_160 => 160,
        FileFormat::MP3_256 => 256,
        FileFormat::OGG_VORBIS_320 | FileFormat::MP3_320 | FileFormat::AAC_320 => 320,
        FileFormat::OTHER3 | FileFormat::OTHER5 => 320,
    }
}

/// The formats that will do for `bitrate`, the best one first.
pub fn preferred_formats(bitrate: Bitrate) -> (formats: [FileFormat; 3])
    ensures
        formats@ == preference(bitrate),
{
    let formats = match bitrate {
        Bitrate::Bitrate96 => [
            FileFormat::OGG_VORBIS_96,
            FileFormat::OGG_VORBIS_160,
            FileFormat::OGG_VORBIS_320,
        ],
        Bitrate::Bitrate160 => [
            FileFormat::OGG_VORBIS_160,
            FileFormat::OGG_VORBIS_96,
            FileFormat::OGG_VORBIS_320,
        ],
        Bitrate::Bitrate320 => [
            FileFormat::OGG_VORBIS_320,
            FileFormat::OGG_VORBIS_160,
            FileFormat::OGG_VORBIS_96,
        ],
    };
    formats
}

/// The file of `format`.
fn find_file(files: &Vec<(FileFormat, FileId)>, format: FileFormat) -> (file_id: Option<FileId>)
    ensures
        file_id == file_of(files@, format),
{
    let mut i: usize = 0;
    assert(files@.skip(0) =~= files@);
    while i < files.len()
        invariant
            i <= files@.len(),
            file_of(files@, format) == file_of(files@.skip(i as int), format),
        decreases files@.len() - i,
    {
        assert(files@.skip(i as int).drop_first() =~= files@.skip(i + 1));
        if files[i].0 == format {
            return Some(files[i].1);
        }
        i += 1;
    }
    None
}

/// The file that does best for `bitrate`.
pub fn select_file(
    files: &Vec<(FileFormat, FileId)>,
    bitrate: Bitrate,
) -> (selected: Option<(FileFormat, FileId)>)
    ensures
        selected == first_file(preference(bitrate), files@),
{
    let formats = preferred_formats(bitrate);
    let ghost wanted = preference(bitrate);
    let mut i: usize = 0;
    assert(wanted.skip(0) =~= wanted);
    while i < 3
        invariant
            i <= 3,
            formats@ == wanted,
            wanted == preference(bitrate),
            first_file(wanted, files@) == first_file(wanted.skip(i as int), files@),
        decreases 3 - i,
    {
        assert(wanted.skip(i as int).drop_first() =~= wanted.skip(i + 1));
        if let Some(file_id) = find_file(files, formats[i]) {
            return Some((formats[i], file_id));
        }
        i += 1;
    }
    None
}

/// How many bytes a second of `format` takes.
pub fn bytes_per_second(format: FileFormat) -> (bytes: usize)
    ensures
        bytes == kbits(format) * 1024 / 8,
{
    match format {
        FileFormat::OGG_VORBIS_96 => 12 * 1024,
        FileFormat::OGG_VORBIS_160 => 20 * 1024,
        FileFormat::OGG_VORBIS_320 => 40 * 1024,
        FileFormat::MP3_256 => 32 * 1024,
        FileFormat::MP3_320 => 40 * 1024,
        FileFormat::MP3_160 => 20 * 1024,
        FileFormat::MP3_96 => 12 * 1024,
        FileFormat::MP3_160_ENC => 20 * 1024,
        FileFormat::MP4_128_DUAL => 16 * 1024,
        FileFormat::OTHER3 => 40 * 1024,
        FileFormat::AAC_160 => 20 * 1024,
        FileFormat::AAC_320 => 40 * 1024,
        FileFormat::MP4_128 => 16 * 1024,
        FileFormat::OTHER5 => 40 * 1024,
    }
}

/// The first of `items` that can be played.
pub open spec fn first_available(items: Seq<AudioItem>) -> Option<AudioItem>
    decreases items.len(),
{
    if items.len() == 0 {
        None
    } else if items[0].available {
        Some(items[0])
    } else {
        first_available(items.drop_first())
    }
}

/// What is played for `audio`, where `alternatives` are the items that its
/// alternatives stand for.
pub open spec fn available_alternative(
    audio: AudioItem,
    alternatives: Seq<AudioItem>,
) -> Option<AudioItem> {
    if audio.available {
        Some(audio)
    } else if audio.alternatives is Some {
        first_available(alternatives)
    } else {
        None
    }
}

/// The item that a reference points to, where there is one.
pub open spec fn pointee(item: Option<&AudioItem>) -> Option<AudioItem> {
    match item {
        Some(item) => Some(*item),
        None => None,
    }
}

/// What is played for `audio`: the item itself or the first alternative that can
/// be played. `alternatives` are the items that its alternatives stand for.
pub fn find_available_alternative<'a>(
    audio: &'a AudioItem,
    alternatives: &'a Vec<AudioItem>,
) -> (found: Option<&'a AudioItem>)
    ensures
        pointee(found) == available_alternative(*audio, alternatives@),
{
    if audio.available {
        Some(audio)
    } else {
        if audio.alternatives.is_some() {
            let mut i: usize = 0;
            assert(alternatives@.skip(0) =~= alternatives@);
            while i < alternatives.len()
                invariant
                    i <= alternatives@.len(),
                    !audio.available,
                    audio.alternatives is Some,
                    first_available(alternatives@) == first_available(alternatives@.skip(i as int)),
                decreases alternatives@.len() - i,
            {
                assert(alternatives@.skip(i as int).drop_first() =~= alternatives@.skip(i + 1));
                if alternatives[i].available {
                    return Some(&alternatives[i]);
                }
                i += 1;
            }
            None
        } else {
            None
        }
    }
}

/// How far a download has come: what it waits for.
pub enum DownloadStage {
    /// The item that was asked for.
    Item,
    /// The alternatives of `audio`.
    Alternatives { audio: AudioItem },
    /// The encrypted file.
    File,
    /// The key to the file.
    Key,
    /// Nothing more.
    Finished,
}

/// What a download has been waiting for.
pub enum DownloadEvent {
    /// The item, if it could be loaded.
    Item(Option<AudioItem>),
    /// The items that the alternatives stand for, in their order.
    Alternatives(Vec<AudioItem>),
    /// Whether the file could be opened.
    File(bool),
    /// Whether the key could be loaded.
    Key(bool),
}

/// What a download does next.
pub enum DownloadAction {
    FetchAlternatives(Vec<SpotifyId>),
    /// Ask for the key of `file_id`, without waiting for it, and open the file.
    OpenFile {
        spotify_id: SpotifyId,
        file_id: FileId,
        bytes_per_second: usize,
        play_from_beginning: bool,
    },
    /// Let the file be read in any order, then wait for the key.
    AwaitKey,
    /// Decrypt the file, skip `offset` bytes and write out the rest.
    Stream { offset: u64 },
    /// Print the message.
    GiveUp(String),
}

/// A [`DownloadAction`] with its texts and lists as sequences.
pub enum DownloadActionView {
    FetchAlternatives(Seq<SpotifyId>),
    OpenFile {
        spotify_id: SpotifyId,
        file_id: FileId,
        bytes_per_second: nat,
        play_from_beginning: bool,
    },
    AwaitKey,
    Stream { offset: u64 },
    GiveUp(Seq<char>),
}

impl View for DownloadAction {
    type V = DownloadActionView;

    open spec fn view(&self) -> DownloadActionView {
        match *self {
            DownloadAction::FetchAlternatives(ids) => DownloadActionView::FetchAlternatives(ids@),
            DownloadAction::OpenFile {
                spotify_id,
                file_id,
                bytes_per_second,
                play_from_beginning,
            } => DownloadActionView::OpenFile {
                spotify_id,
                file_id,
                bytes_per_second: bytes_per_second as nat,
                play_from_beginning,
            },
            DownloadAction::AwaitKey => DownloadActionView::AwaitKey,
            DownloadAction::Stream { offset } => DownloadActionView::Stream { offset },
            DownloadAction::GiveUp(message) => DownloadActionView::GiveUp(message@),
        }
    }
}

/// Whether `event` is what a download in `stage` waits for.
pub open spec fn awaited(stage: DownloadStage, event: DownloadEvent) -> bool {
    match stage {
        DownloadStage::Item => event is Item,
        DownloadStage::Alternatives { .. } => event is Alternatives,
        DownloadStage::File => event is File,
        DownloadStage::Key => event is Key,
        DownloadStage::Finished => false,
    }
}

/// Whether `found`, where there is one, comes in one of the formats that will do.
pub open spec fn playable(found: Option<AudioItem>, bitrate: Bitrate) -> bool {
    found matches Some(item) ==> first_file(preference(bitrate), item.files@) is Some
}

/// Whether the item that `event` leads to comes in one of the formats that will do.
pub open spec fn event_playable(
    stage: DownloadStage,
    event: DownloadEvent,
    bitrate: Bitrate,
) -> bool {
    match (stage, event) {
        (_, DownloadEvent::Item(Some(audio))) => audio.available ==> playable(Some(audio), bitrate),
        (
            DownloadStage::Alternatives { audio },
            DownloadEvent::Alternatives(alternatives),
        ) => playable(available_alternative(audio, alternatives@), bitrate),
        _ => true,
    }
}

/// What is done once it is known what to play for the item `uri`. The key is asked
/// for under the identifier that was given, also where an alternative is played.
pub open spec fn open_found(
    uri: Seq<char>,
    found: Option<AudioItem>,
    spotify_id: SpotifyId,
    bitrate: Bitrate,
) -> (DownloadStage, DownloadActionView) {
    match found {
        Some(item) => {
            let (format, file_id) = first_file(preference(bitrate), item.files@)->0;
            (
                DownloadStage::File,
                DownloadActionView::OpenFile {
                    spotify_id,
                    file_id,
                    bytes_per_second: kbits(format) * 1024 / 8,
                    play_from_beginning: true,
                },
            )
        },
        None => (
            DownloadStage::Finished,
            DownloadActionView::GiveUp("<"@ + uri + "> is not available"@),
        ),
    }
}

/// What a download of `spotify_id` in `stage` does on `event`.
pub open spec fn download_step(
    stage: DownloadStage,
    event: DownloadEvent,
    spotify_id: SpotifyId,
    bitrate: Bitrate,
) -> (DownloadStage, DownloadActionView) {
    match (stage, event) {
        (_, DownloadEvent::Item(None)) => (
            DownloadStage::Finished,
            DownloadActionView::GiveUp("Unable to load audio item."@),
        ),
        (_, DownloadEvent::Item(Some(audio))) => match audio.alternatives {
            Some(ids) if !audio.available => (
                DownloadStage::Alternatives { audio },
                DownloadActionView::FetchAlternatives(ids@),
            ),
            _ => open_found(
                audio.uri@,
                available_alternative(audio, Seq::empty()),
                spotify_id,
                bitrate,
            ),
        },
        (
            DownloadStage::Alternatives { audio },
            DownloadEvent::Alternatives(alternatives),
        ) => open_found(
            audio.uri@,
            available_alternative(audio, alternatives@),
            spotify_id,
            bitrate,
        ),
        (_, DownloadEvent::File(true)) => (DownloadStage::Key, DownloadActionView::AwaitKey),
        (_, DownloadEvent::File(false)) => (
            DownloadStage::Finished,
            DownloadActionView::GiveUp("Unable to load encrypted file."@),
        ),
        (_, DownloadEvent::Key(true)) => (
            DownloadStage::Finished,
            DownloadActionView::Stream { offset: SPOTIFY_TRACK_HEADER_SIZE },
        ),
        (_, DownloadEvent::Key(false)) => (
            DownloadStage::Finished,
            DownloadActionView::GiveUp("Unable to load decryption key"@),
        ),
        _ => arbitrary(),
    }
}

/// Whether the item that `event` leads to comes in one of the formats that will do.
pub fn is_playable(stage: &DownloadStage, event: &DownloadEvent, bitrate: Bitrate) -> (playable:
    bool)
    ensures
        playable == event_playable(*stage, *event, bitrate),
{
    match event {
        DownloadEvent::Item(Some(audio)) => {
            !audio.available || select_file(&audio.files, bitrate).is_some()
        },
        DownloadEvent::Alternatives(alternatives) => match stage {
            DownloadStage::Alternatives { audio } => match find_available_alternative(
                audio,
                alternatives,
            ) {
                Some(item) => select_file(&item.files, bitrate).is_some(),
                None => true,
            },
            _ => true,
        },
        _ => true,
    }
}

/// Opens the file of what was found for the item `uri`.
fn open_item(
    uri: &String,
    found: Option<&AudioItem>,
    spotify_id: SpotifyId,
    bitrate: Bitrate,
) -> (next: (DownloadStage, DownloadAction))
    requires
        playable(pointee(found), bitrate),
    ensures
        (next.0, next.1@) == open_found(uri@, pointee(found), spotify_id, bitrate),
{
    match found {
        Some(item) => {
            let (format, file_id) = select_file(&item.files, bitrate).unwrap();
            (
                DownloadStage::File,
                DownloadAction::OpenFile {
                    spotify_id,
                    file_id,
                    bytes_per_second: bytes_per_second(format),
                    play_from_beginning: true,
                },
            )
        },
        None => {
            let mut message = "<".to_owned();
            message.append(uri.as_str());
            message.append("> is not available");
            (DownloadStage::Finished, DownloadAction::GiveUp(message))
        },
    }
}

/// Takes what a download of `spotify_id` has been waiting for, and says what it
/// waits for next and what to do. It starts by loading the item of `spotify_id`.
pub fn download(
    stage: DownloadStage,
    event: DownloadEvent,
    spotify_id: SpotifyId,
    bitrate: Bitrate,
) -> (next: (DownloadStage, DownloadAction))
    requires
        awaited(stage, event),
        event_playable(stage, event, bitrate),
    ensures
        (next.0, next.1@) == download_step(stage, event, spotify_id, bitrate),
{
    match event {
        DownloadEvent::Item(None) => (
            DownloadStage::Finished,
            DownloadAction::GiveUp("Unable to load audio item.".to_owned()),
        ),
        DownloadEvent::Item(Some(audio)) => {
            if !audio.available {
                if let Some(ids) = &audio.alternatives {
                    let ids = ids.clone();
                    return (
                        DownloadStage::Alternatives { audio },
                        DownloadAction::FetchAlternatives(ids),
                    );
                }
            }
            let none: Vec<AudioItem> = Vec::new();
            let found = find_available_alternative(&audio, &none);
            open_item(&audio.uri, found, spotify_id, bitrate)
        },
        DownloadEvent::Alternatives(alternatives) => match stage {
            DownloadStage::Alternatives { audio } => {
                let found = find_available_alternative(&audio, &alternatives);
                open_item(&audio.uri, found, spotify_id, bitrate)
            },
            _ => vstd::pervasive::unreached(),
        },
        DownloadEvent::File(opened) => {
            if opened {
                // Not streaming: the order in which the data comes does not matter.
                (DownloadStage::Key, DownloadAction::AwaitKey)
            } else {
                (
                    DownloadStage::Finished,
                    DownloadAction::GiveUp("Unable to load encrypted file.".to_owned()),
                )
            }
        },
        DownloadEvent::Key(loaded) => {
            if loaded {
                (
                    DownloadStage::Finished,
                    DownloadAction::Stream { offset: SPOTIFY_TRACK_HEADER_SIZE },
                )
            } else {
                (
                    DownloadStage::Finished,
                    DownloadAction::GiveUp("Unable to load decryption key".to_owned()),
                )
            }
        },
    }
}

/// What the thread that copies the data reports.
#[derive(Clone, Copy, Debug, PartialEq, Eq, Structural)]
pub enum Signal {
    Done,
    Error,
    Alive,
}

/// What the thread that copies the data has just done.
#[derive(Clone, Copy, Debug, PartialEq, Eq)]
pub enum CopyInput {
    /// It was started.
    Start,
    /// It has read so many bytes into the buffer, if it could.
    Read(Option<usize>),
    /// It has written, or tried to.
    Written(bool),
    /// It has flushed, or tried to.
    Flushed(bool),
}

/// What the thread that copies the data does next.
#[derive(Clone, Copy, Debug, PartialEq, Eq)]
pub enum CopyAction {
    /// Read into the buffer. This waits until data has come from the network, for
    /// ever if need be.
    Read,
    /// Write the first `len` bytes of the buffer.
    Write { len: usize },
    Flush,
    Stop,
}

/// What the thread that copies the data reports, if anything, before what it does
/// next.
#[derive(Clone, Copy, Debug, PartialEq, Eq)]
pub struct CopyStep {
    pub signal: Option<Signal>,
    pub action: CopyAction,
}

/// What the thread that copies the data does after `input`. It reads and writes in
/// turn. It reports before every read that it is alive, and at its end how it ended.
pub open spec fn copy_step(input: CopyInput) -> CopyStep {
    match input {
        CopyInput::Start | CopyInput::Flushed(true) => CopyStep {
            signal: Some(Signal::Alive),
            action: CopyAction::Read,
        },
        CopyInput::Read(Some(0)) => CopyStep {
            signal: Some(Signal::Done),
            action: CopyAction::Stop,
        },
        CopyInput::Read(Some(len)) => CopyStep {
            signal: None,
            action: CopyAction::Write { len },
        },
        CopyInput::Written(true) => CopyStep { signal: None, action: CopyAction::Flush },
        CopyInput::Read(None) | CopyInput::Written(false) | CopyInput::Flushed(false) => CopyStep {
            signal: Some(Signal::Error),
            action: CopyAction::Stop,
        },
    }
}

/// Takes what the thread that copies the data has just done, and says what it
/// reports and does next.
pub fn copy(input: CopyInput) -> (step: CopyStep)
    requires
        input matches CopyInput::Read(Some(len)) ==> len <= BUFFER_SIZE,
    ensures
        step == copy_step(input),
        step.action matches CopyAction::Write { len } ==> 0 < len <= BUFFER_SIZE,
{
    match input {
        CopyInput::Start => CopyStep { signal: Some(Signal::Alive), action: CopyAction::Read },
        CopyInput::Read(Some(bytes_read)) => {
            if bytes_read == 0 {
                CopyStep { signal: Some(Signal::Done), action: CopyAction::Stop }
            } else {
                CopyStep { signal: None, action: CopyAction::Write { len: bytes_read } }
            }
        },
        CopyInput::Written(true) => CopyStep { signal: None, action: CopyAction::Flush },
        CopyInput::Flushed(true) => CopyStep {
            signal: Some(Signal::Alive),
            action: CopyAction::Read,
        },
        CopyInput::Read(None) | CopyInput::Written(false) | CopyInput::Flushed(false) => CopyStep {
            signal: Some(Signal::Error),
            action: CopyAction::Stop,
        },
    }
}

/// What the download waits for while the data is copied, in the order in which it
/// is polled.
#[derive(Clone, Copy, Debug, PartialEq, Eq)]
pub enum OggSource {
    ReadTimeout,
    CtrlC,
    ThreadComm,
}

/// What polling gave. Of the timeout it says whether its time is up.
pub enum OggInput {
    ReadTimeout(bool),
    CtrlC(Polled<()>),
    ThreadComm(Polled<Signal>),
}

/// What follows from what polling gave.
#[derive(Clone, Copy, Debug, PartialEq, Eq)]
pub enum OggStep {
    /// Poll the next source.
    Poll,
    /// Set the timeout again, then start over.
    ResetTimeout { seconds: u64 },
    /// Nothing was found: wait.
    NotReady,
    /// The download is over.
    Finished { timed_out: bool },
}

/// Whether `input` comes from `source`, and is no failure of it.
pub open spec fn comes_from(input: OggInput, source: OggSource) -> bool {
    match source {
        OggSource::ReadTimeout => input is ReadTimeout,
        OggSource::CtrlC => input matches OggInput::CtrlC(polled) && !(polled is Failed),
        OggSource::ThreadComm => input matches OggInput::ThreadComm(polled) && !(polled is Failed),
    }
}

/// What follows from `input`, and what is polled after it.
pub open spec fn ogg_step(input: OggInput) -> (OggSource, OggStep) {
    match input {
        OggInput::ReadTimeout(true) => (
            OggSource::ReadTimeout,
            OggStep::Finished { timed_out: true },
        ),
        OggInput::ReadTimeout(false) => (OggSource::CtrlC, OggStep::Poll),
        OggInput::CtrlC(Polled::Item(_)) => (
            OggSource::ReadTimeout,
            OggStep::Finished { timed_out: false },
        ),
        OggInput::CtrlC(_) => (OggSource::ThreadComm, OggStep::Poll),
        OggInput::ThreadComm(Polled::Item(Signal::Alive)) => (
            OggSource::ReadTimeout,
            OggStep::ResetTimeout { seconds: READ_TIMEOUT_SECONDS },
        ),
        OggInput::ThreadComm(Polled::Item(_)) => (
            OggSource::ReadTimeout,
            OggStep::Finished { timed_out: false },
        ),
        OggInput::ThreadComm(_) => (OggSource::ReadTimeout, OggStep::NotReady),
    }
}

/// Waits until all data has been copied, the user interrupts, no data has come for
/// too long or an error has occurred.
pub struct OggDirectInternal {
    /// What is polled next.
    pub source: OggSource,
}

impl OggDirectInternal {
    /// Starts with the timeout, which is first set to [`READ_TIMEOUT_SECONDS`].
    pub fn new() -> (internal: OggDirectInternal)
        ensures
            internal.source == OggSource::ReadTimeout,
    {
        OggDirectInternal { source: OggSource::ReadTimeout }
    }

    /// Takes what polling the next source gave, and says what follows from it.
    pub fn poll(&mut self, input: OggInput) -> (step: OggStep)
        requires
            comes_from(input, old(self).source),
        ensures
            (final(self).source, step) == ogg_step(input),
    {
        match input {
            OggInput::ReadTimeout(elapsed) => {
                if elapsed {
                    self.source = OggSource::ReadTimeout;
                    OggStep::Finished { timed_out: true }
                } else {
                    self.source = OggSource::CtrlC;
                    OggStep::Poll
                }
            },
            OggInput::CtrlC(polled) => match polled {
                Polled::Item(_) => {
                    self.source = OggSource::ReadTimeout;
                    OggStep::Finished { timed_out: false }
                },
                _ => {
                    self.source = OggSource::ThreadComm;
                    OggStep::Poll
                },
            },
            OggInput::ThreadComm(polled) => {
                self.source = OggSource::ReadTimeout;
                match polled {
                    Polled::Item(signal) => match signal {
                        Signal::Done | Signal::Error => OggStep::Finished { timed_out: false },
                        Signal::Alive => OggStep::ResetTimeout { seconds: READ_TIMEOUT_SECONDS },
                    },
                    _ => OggStep::NotReady,
                }
            },
        }
    }
}

/// The file of a format is the one that is listed for it, wherever it stands.
pub proof fn law_file_is_the_listed_one(audio: AudioItem, i: int)
    requires
        audio.wf(),
        0 <= i < audio.files@.len(),
    ensures
        file_of(audio.files@, audio.files@[i].0) == Some(audio.files@[i].1),
{
    lemma_file_of(audio.files@, i);
}

proof fn lemma_file_of(files: Seq<(FileFormat, FileId)>, i: int)
    requires
        forall|j: int, k: int|
            0 <= j < k < files.len() ==> #[trigger] files[j].0 != #[trigger] files[k].0,
        0 <= i < files.len(),
    ensures
        file_of(files, files[i].0) == Some(files[i].1),
    decreases files.len(),
{
    if i > 0 {
        lemma_file_of(files.drop_first(), i - 1);
    }
}

/// An item that has a file for the bitrate that is asked for is played with it.
pub proof fn law_wanted_bitrate_comes_first(files: Seq<(FileFormat, FileId)>, bitrate: Bitrate)
    requires
        file_of(files, preference(bitrate)[0]) is Some,
    ensures
        first_file(preference(bitrate), files) == Some(
            (preference(bitrate)[0], file_of(files, preference(bitrate)[0])->0),
        ),
{
}

/// Whatever bitrate is asked for, any Vorbis file will do, and nothing else will:
/// what is chosen is a Vorbis file of the item, and there is one just if the item
/// has one. So an item that comes with 96 kbit/s only is played.
pub proof fn law_any_vorbis_will_do(files: Seq<(FileFormat, FileId)>, bitrate: Bitrate)
    ensures
        first_file(preference(bitrate), files) is Some <==> {
            ||| file_of(files, FileFormat::OGG_VORBIS_96) is Some
            ||| file_of(files, FileFormat::OGG_VORBIS_160) is Some
            ||| file_of(files, FileFormat::OGG_VORBIS_320) is Some
        },
        first_file(preference(bitrate), files) matches Some((format, file_id)) ==> {
            &&& file_of(files, format) == Some(file_id)
            &&& format == FileFormat::OGG_VORBIS_96 || format == FileFormat::OGG_VORBIS_160
                || format == FileFormat::OGG_VORBIS_320
        },
{
    reveal_with_fuel(first_file, 4);
}

/// What is played for an item can be played. It is the item itself, if that can be
/// played, and one of its alternatives otherwise; and nothing is played just if
/// neither the item nor any of its alternatives can be played.
pub proof fn law_played_item_is_available(audio: AudioItem, alternatives: Seq<AudioItem>)
    requires
        audio.alternatives is None ==> alternatives.len() == 0,
    ensures
        available_alternative(audio, alternatives) matches Some(item) ==> {
            &&& item.available
            &&& if audio.available {
                item == audio
            } else {
                alternatives.contains(item)
            }
        },
        available_alternative(audio, alternatives) is None <==> {
            &&& !audio.available
            &&& forall|i: int| 0 <= i < alternatives.len() ==> !(#[trigger] alternatives[i]).available
        },
{
    lemma_first_available(alternatives);
}

proof fn lemma_first_available(items: Seq<AudioItem>)
    ensures
        first_available(items) matches Some(item) ==> item.available && items.contains(item),
        first_available(items) is None <==> forall|i: int|
            0 <= i < items.len() ==> !(#[trigger] items[i]).available,
    decreases items.len(),
{
    if items.len() > 0 {
        let rest = items.drop_first();
        lemma_first_available(rest);
        if !items[0].available {
            assert(forall|i: int|
                0 <= i < items.len() ==> (#[trigger] items[i]).available == (i > 0 && rest[i
                    - 1].available));
        }
    }
}

/// Whether a download that was told to do `action` goes on.
pub open spec fn goes_on(action: DownloadActionView) -> bool {
    !(action is GiveUp) && !(action is Stream)
}

/// A download is over just when it gives up or has its data, so one that is not
/// over always knows what it waits for.
pub proof fn law_download_waits_or_is_over(
    stage: DownloadStage,
    event: DownloadEvent,
    spotify_id: SpotifyId,
    bitrate: Bitrate,
)
    requires
        awaited(stage, event),
        event_playable(stage, event, bitrate),
    ensures
        ({
            let (next, action) = download_step(stage, event, spotify_id, bitrate);
            next is Finished <==> !goes_on(action)
        }),
{
}

/// An item that can be played is streamed, behind its header, if its file and its key
/// can be loaded; its alternatives are not asked for.
pub proof fn law_available_item_is_streamed(
    audio: AudioItem,
    spotify_id: SpotifyId,
    bitrate: Bitrate,
)
    requires
        audio.available,
        playable(Some(audio), bitrate),
    ensures
        ({
            let (first, open) = download_step(
                DownloadStage::Item,
                DownloadEvent::Item(Some(audio)),
                spotify_id,
                bitrate,
            );
            let (second, wait) = download_step(
                first,
                DownloadEvent::File(true),
                spotify_id,
                bitrate,
            );
            let (third, stream) = download_step(
                second,
                DownloadEvent::Key(true),
                spotify_id,
                bitrate,
            );
            &&& first is File && open is OpenFile
            &&& second is Key && wait is AwaitKey
            &&& third is Finished
            &&& stream == (DownloadActionView::Stream { offset: SPOTIFY_TRACK_HEADER_SIZE })
        }),
{
}

/// Whatever file is opened, it is one that the played item has, and its key is asked
/// for under the identifier that was given.
pub proof fn law_opened_file_is_of_the_played_item(
    uri: Seq<char>,
    item: AudioItem,
    spotify_id: SpotifyId,
    bitrate: Bitrate,
)
    requires
        playable(Some(item), bitrate),
    ensures
        open_found(uri, Some(item), spotify_id, bitrate).1 matches DownloadActionView::OpenFile {
            spotify_id: asked,
            file_id,
            ..
        } && asked == spotify_id && exists|format: FileFormat|
            #[trigger] file_of(item.files@, format) == Some(file_id),
{
    law_any_vorbis_will_do(item.files@, bitrate);
}

/// Whether the thread that copies the data can have done `input` after `action`.
pub open spec fn follows(input: CopyInput, action: CopyAction) -> bool {
    match action {
        CopyAction::Read => input is Read,
        CopyAction::Write { .. } => input is Written,
        CopyAction::Flush => input is Flushed,
        CopyAction::Stop => false,
    }
}

/// Whether the thread that copies the data can have done `inputs`, one after the
/// other.
#[verifier::opaque]
pub open spec fn is_run(inputs: Seq<CopyInput>) -> bool {
    &&& inputs.len() > 0
    &&& inputs[0] is Start
    &&& forall|i: int|
        0 < i < inputs.len() ==> follows(#[trigger] inputs[i], copy_step(inputs[i - 1]).action)
}

/// A run without its last step is a run, and its last step follows from the one before.
proof fn lemma_last_of_run(inputs: Seq<CopyInput>)
    requires
        is_run(inputs),
    ensures
        inputs.len() > 0,
        inputs.len() == 1 ==> inputs[0] is Start,
        inputs.len() > 1 ==> {
            &&& is_run(inputs.drop_last())
            &&& inputs.drop_last().last() == inputs[inputs.len() - 2]
            &&& follows(inputs.last(), copy_step(inputs[inputs.len() - 2]).action)
        },
{
    reveal(is_run);
    if inputs.len() > 1 {
        let rest = inputs.drop_last();
        assert(follows(inputs[inputs.len() - 1], copy_step(inputs[inputs.len() - 2]).action));
        assert(forall|i: int|
            0 < i < rest.len() ==> follows(#[trigger] rest[i], copy_step(rest[i - 1]).action));
    }
}

/// How many bytes were read in `inputs`.
pub open spec fn bytes_read(inputs: Seq<CopyInput>) -> nat
    decreases inputs.len(),
{
    if inputs.len() == 0 {
        0
    } else {
        bytes_read(inputs.drop_last()) + (match inputs.last() {
            CopyInput::Read(Some(len)) => len as nat,
            _ => 0,
        })
    }
}

/// How many bytes were written in `inputs`.
pub open spec fn bytes_written(inputs: Seq<CopyInput>) -> nat
    decreases inputs.len(),
{
    if inputs.len() < 2 {
        0
    } else {
        bytes_written(inputs.drop_last()) + (match (
            inputs.last(),
            copy_step(inputs[inputs.len() - 2]).action,
        ) {
            (CopyInput::Written(true), CopyAction::Write { len }) => len as nat,
            _ => 0,
        })
    }
}

/// How many bytes have been read and not been written: those that are to be written
/// next, or that could not be written.
pub open spec fn pending(inputs: Seq<CopyInput>) -> nat {
    match inputs.last() {
        CopyInput::Read(Some(len)) => len as nat,
        CopyInput::Written(false) => match copy_step(inputs[inputs.len() - 2]).action {
            CopyAction::Write { len } => len as nat,
            _ => 0,
        },
        _ => 0,
    }
}

/// Nothing is lost and nothing is written twice: all that has been read has been
/// written but for what was read last, and that too whenever the thread reads and when
/// it is done.
pub proof fn law_all_that_is_read_is_written(inputs: Seq<CopyInput>)
    requires
        is_run(inputs),
    ensures
        bytes_written(inputs) + pending(inputs) == bytes_read(inputs),
        copy_step(inputs.last()).action is Read ==> bytes_written(inputs) == bytes_read(inputs),
        copy_step(inputs.last()).signal == Some(Signal::Done) ==> bytes_written(inputs)
            == bytes_read(inputs),
    decreases inputs.len(),
{
    let rest = inputs.drop_last();
    lemma_last_of_run(inputs);
    if inputs.len() > 1 {
        law_all_that_is_read_is_written(rest);
    } else {
        assert(bytes_read(rest) == 0);
    }
}

/// What the buffer holds after `inputs`, where `data` is what there is to read: the
/// bytes that were read last.
pub open spec fn buffered(inputs: Seq<CopyInput>, data: Seq<u8>) -> Seq<u8>
    decreases inputs.len(),
{
    if inputs.len() == 0 {
        Seq::empty()
    } else {
        match inputs.last() {
            CopyInput::Read(Some(len)) => data.subrange(
                bytes_read(inputs.drop_last()) as int,
                bytes_read(inputs.drop_last()) + len,
            ),
            _ => buffered(inputs.drop_last(), data),
        }
    }
}

/// What has been written after `inputs`, where `data` is what there is to read: of the
/// buffer, each time, as many bytes as the thread was told to write.
pub open spec fn output(inputs: Seq<CopyInput>, data: Seq<u8>) -> Seq<u8>
    decreases inputs.len(),
{
    if inputs.len() < 2 {
        Seq::empty()
    } else {
        output(inputs.drop_last(), data) + (match (
            inputs.last(),
            copy_step(inputs[inputs.len() - 2]).action,
        ) {
            (CopyInput::Written(true), CopyAction::Write { len }) => buffered(
                inputs.drop_last(),
                data,
            ).take(len as int),
            _ => Seq::empty(),
        })
    }
}

/// Wherever copying is cut short, what has been written is what the decrypted file
/// holds behind its header, from there on without a gap. This holds also in the middle
/// of a write, and of one that failed, when `partly` of the bytes that were read last
/// have been written.
pub proof fn law_output_is_a_prefix_of_the_stream(
    decrypted: Seq<u8>,
    inputs: Seq<CopyInput>,
    partly: nat,
)
    requires
        is_run(inputs),
        SPOTIFY_TRACK_HEADER_SIZE + bytes_read(inputs) <= decrypted.len(),
        partly <= pending(inputs),
    ensures
        ({
            let data = decrypted.skip(SPOTIFY_TRACK_HEADER_SIZE as int);
            let written = output(inputs, data) + buffered(inputs, data).take(partly as int);
            &&& written == data.take((bytes_written(inputs) + partly) as int)
            &&& written.is_prefix_of(data)
            &&& written.len() <= bytes_read(inputs)
        }),
{
    let data = decrypted.skip(SPOTIFY_TRACK_HEADER_SIZE as int);
    law_all_that_is_read_is_written(inputs);
    lemma_output(inputs, data);
    let chunk = buffered(inputs, data).take(partly as int);
    let written = output(inputs, data) + chunk;
    if partly == 0 {
        assert(chunk =~= Seq::<u8>::empty());
    } else {
        assert(chunk =~= data.subrange(
            bytes_written(inputs) as int,
            (bytes_written(inputs) + partly) as int,
        ));
    }
    assert(written =~= data.take((bytes_written(inputs) + partly) as int));
    assert(written =~= data.subrange(0, written.len() as int));
}

proof fn lemma_output(inputs: Seq<CopyInput>, data: Seq<u8>)
    requires
        is_run(inputs),
        bytes_read(inputs) <= data.len(),
    ensures
        bytes_written(inputs) + pending(inputs) == bytes_read(inputs),
        output(inputs, data) == data.take(bytes_written(inputs) as int),
        pending(inputs) > 0 ==> buffered(inputs, data) == data.subrange(
            bytes_written(inputs) as int,
            bytes_read(inputs) as int,
        ),
    decreases inputs.len(),
{
    law_all_that_is_read_is_written(inputs);
    let rest = inputs.drop_last();
    lemma_last_of_run(inputs);
    if inputs.len() > 1 {
        lemma_output(rest, data);
        let previous = inputs[inputs.len() - 2];
        let so_far = output(rest, data);
        match inputs.last() {
            CopyInput::Read(Some(len)) => {
                assert(pending(rest) == 0);
                assert(output(inputs, data) =~= so_far);
            },
            CopyInput::Written(written) => {
                let len = previous->Read_0->0;
                let chunk = buffered(rest, data);
                assert(previous == CopyInput::Read(Some(len)) && len > 0);
                assert(chunk == data.subrange(
                    bytes_written(rest) as int,
                    bytes_read(rest) as int,
                ));
                assert(chunk.take(len as int) =~= chunk);
                if written {
                    assert(output(inputs, data) == so_far + chunk);
                    assert(so_far + chunk =~= data.take(bytes_written(inputs) as int));
                } else {
                    assert(output(inputs, data) =~= so_far);
                }
            },
            _ => {
                assert(output(inputs, data) =~= so_far);
            },
        }
    } else {
        assert(data.take(0) =~= Seq::<u8>::empty());
    }
}

/// Once reading, writing or flushing has failed, nothing more is read or written: the
/// thread reports the error and stops.
pub proof fn law_errors_end_the_copying(inputs: Seq<CopyInput>, i: int)
    requires
        is_run(inputs),
        0 <= i < inputs.len(),
        inputs[i] == CopyInput::Read(None) || inputs[i] == CopyInput::Written(false) || inputs[i]
            == CopyInput::Flushed(false),
    ensures
        copy_step(inputs[i]) == (CopyStep {
            signal: Some(Signal::Error),
            action: CopyAction::Stop,
        }),
        i == inputs.len() - 1,
{
    law_end_is_reported_once_and_last(inputs, i);
}

/// The thread reports its end once, and last.
pub proof fn law_end_is_reported_once_and_last(inputs: Seq<CopyInput>, i: int)
    requires
        is_run(inputs),
        0 <= i < inputs.len(),
    ensures
        ({
            let step = copy_step(inputs[i]);
            step.signal == Some(Signal::Done) || step.signal == Some(Signal::Error) <==> step.action
                is Stop
        }),
        copy_step(inputs[i]).action is Stop ==> i == inputs.len() - 1,
{
    reveal(is_run);
    if i < inputs.len() - 1 {
        assert(follows(inputs[i + 1], copy_step(inputs[i + 1 - 1]).action));
    }
}

/// Every read is announced, and only reads are: it is these reports that keep a
/// download from timing out, each for the same time.
pub proof fn law_reads_keep_the_download_alive(input: CopyInput)
    ensures
        copy_step(input).action is Read <==> copy_step(input).signal == Some(Signal::Alive),
        copy_step(input).action is Read ==> ogg_step(
            OggInput::ThreadComm(Polled::Item(copy_step(input).signal->0)),
        ).1 == (OggStep::ResetTimeout { seconds: READ_TIMEOUT_SECONDS }),
{
}

/// When the thread stops, its report ends the download.
pub proof fn law_stop_ends_the_download(input: CopyInput)
    requires
        copy_step(input).action is Stop,
    ensures
        copy_step(input).signal matches Some(signal) && ogg_step(
            OggInput::ThreadComm(Polled::Item(signal)),
        ).1 == (OggStep::Finished { timed_out: false }),
{
}

/// A download ends when its time is up, the user interrupts or the thread has
/// reported its end, and at no other time.
pub proof fn law_download_ends(input: OggInput)
    ensures
        ogg_step(input).1 is Finished <==> {
            ||| input == OggInput::ReadTimeout(true)
            ||| input matches OggInput::CtrlC(polled) && polled is Item
            ||| input == OggInput::ThreadComm(Polled::Item(Signal::Done))
            ||| input == OggInput::ThreadComm(Polled::Item(Signal::Error))
        },
{
}

/// The sources are polled in turn, and the download waits only after all three had
/// nothing to say.
pub proof fn law_sources_are_polled_in_turn(
    timeout: OggInput,
    ctrl_c: OggInput,
    thread: OggInput,
)
    requires
        comes_from(timeout, OggSource::ReadTimeout),
        comes_from(ctrl_c, OggSource::CtrlC),
        comes_from(thread, OggSource::ThreadComm),
    ensures
        ogg_step(timeout).1 is Poll ==> ogg_step(timeout).0 == OggSource::CtrlC,
        ogg_step(ctrl_c).1 is Poll ==> ogg_step(ctrl_c).0 == OggSource::ThreadComm,
        ogg_step(thread).0 == OggSource::ReadTimeout,
        !(ogg_step(timeout).1 is NotReady),
        !(ogg_step(ctrl_c).1 is NotReady),
        ogg_step(thread).1 is NotReady <==> !(thread->ThreadComm_0 is Item),
{
}

/// The file of a format is the first that is listed for it, and there is none just if
/// none is listed.
pub proof fn law_file_of_a_format(
    files: Seq<(FileFormat, FileId)>,
    format: FileFormat,
    file_id: Option<FileId>,
)
    requires
        file_id == file_of(files, format),
    ensures
        file_id is None ==> forall|i: int|
            0 <= i < files.len() ==> (#[trigger] files[i]).0 != format,
        file_id matches Some(file_id) ==> exists|i: int|
            0 <= i < files.len() && #[trigger] files[i] == (format, file_id) && forall|j: int|
                0 <= j < i ==> (#[trigger] files[j]).0 != format,
{
    let place = lemma_place(files, format);
    if let Some(i) = place {
        assert(files[i] == (format, file_id->0));
    }
}

/// Where the file of a format is listed.
proof fn lemma_place(files: Seq<(FileFormat, FileId)>, format: FileFormat) -> (place: Option<int>)
    ensures
        place matches Some(i) ==> {
            &&& 0 <= i < files.len()
            &&& files[i].0 == format
            &&& file_of(files, format) == Some(files[i].1)
            &&& forall|j: int| 0 <= j < i ==> (#[trigger] files[j]).0 != format
        },
        place is None ==> {
            &&& file_of(files, format) is None
            &&& forall|j: int| 0 <= j < files.len() ==> (#[trigger] files[j]).0 != format
        },
    decreases files.len(),
{
    if files.len() == 0 {
        None
    } else if files[0].0 == format {
        Some(0)
    } else {
        let rest = files.drop_first();
        let place = lemma_place(rest, format);
        let end = match place {
            Some(i) => i + 1,
            None => files.len() as int,
        };
        assert forall|j: int| 0 <= j < end implies (#[trigger] files[j]).0 != format by {
            if j > 0 {
                assert(rest[j - 1].0 != format);
            }
        }
        match place {
            Some(i) => Some(i + 1),
            None => None,
        }
    }
}

/// The formats that will do are the three of Vorbis. The one of the bitrate that is asked
/// for comes first. Of the other two, 160 kbit/s comes before 96 and 320, and 96 before
/// 320.
pub proof fn law_preferred_formats(bitrate: Bitrate, formats: [FileFormat; 3])
    requires
        formats@ == preference(bitrate),
    ensures
        formats@[0] == (match bitrate {
            Bitrate::Bitrate96 => FileFormat::OGG_VORBIS_96,
            Bitrate::Bitrate160 => FileFormat::OGG_VORBIS_160,
            Bitrate::Bitrate320 => FileFormat::OGG_VORBIS_320,
        }),
        formats@[1] == FileFormat::OGG_VORBIS_160 <==> bitrate != Bitrate::Bitrate160,
        formats@[1] == FileFormat::OGG_VORBIS_96 <==> bitrate == Bitrate::Bitrate160,
        formats@[2] == FileFormat::OGG_VORBIS_320 <==> bitrate != Bitrate::Bitrate320,
        formats@[2] == FileFormat::OGG_VORBIS_96 <==> bitrate == Bitrate::Bitrate320,
{
}

/// What is chosen is a Vorbis file that is listed, the first of its format. No file is
/// listed that would do better: where there is one for the bitrate that is asked for, it
/// is chosen; else 160 kbit/s is chosen over 96 and over 320, and 96 over 320. Nothing is
/// chosen just if no Vorbis file is listed.
pub proof fn law_no_better_file_is_listed(
    files: Seq<(FileFormat, FileId)>,
    bitrate: Bitrate,
    selected: Option<(FileFormat, FileId)>,
)
    requires
        selected == first_file(preference(bitrate), files),
    ensures
        selected is None <==> forall|i: int|
            0 <= i < files.len() ==> (#[trigger] files[i]).0 != FileFormat::OGG_VORBIS_96
                && files[i].0 != FileFormat::OGG_VORBIS_160 && files[i].0
                != FileFormat::OGG_VORBIS_320,
        selected matches Some((format, file_id)) ==> {
            &&& format == FileFormat::OGG_VORBIS_96 || format == FileFormat::OGG_VORBIS_160
                || format == FileFormat::OGG_VORBIS_320
            &&& exists|i: int|
                0 <= i < files.len() && #[trigger] files[i] == (format, file_id) && forall|j: int|
                    0 <= j < i ==> (#[trigger] files[j]).0 != format
            &&& forall|i: int|
                0 <= i < files.len() ==> match (bitrate, (#[trigger] files[i]).0) {
                    (Bitrate::Bitrate96, FileFormat::OGG_VORBIS_96) => format
                        == FileFormat::OGG_VORBIS_96,
                    (Bitrate::Bitrate96, FileFormat::OGG_VORBIS_160) => format
                        != FileFormat::OGG_VORBIS_320,
                    (Bitrate::Bitrate160, FileFormat::OGG_VORBIS_160) => format
                        == FileFormat::OGG_VORBIS_160,
                    (Bitrate::Bitrate160, FileFormat::OGG_VORBIS_96) => format
                        != FileFormat::OGG_VORBIS_320,
                    (Bitrate::Bitrate320, FileFormat::OGG_VORBIS_320) => format
                        == FileFormat::OGG_VORBIS_320,
                    (Bitrate::Bitrate320, FileFormat::OGG_VORBIS_160) => format
                        != FileFormat::OGG_VORBIS_96,
                    _ => true,
                }
        },
{
    reveal_with_fuel(first_file, 4);
    let a = lemma_place(files, FileFormat::OGG_VORBIS_96);
    let b = lemma_place(files, FileFormat::OGG_VORBIS_160);
    let c = lemma_place(files, FileFormat::OGG_VORBIS_320);
    if let Some((format, file_id)) = selected {
        let i = if format == FileFormat::OGG_VORBIS_96 {
            a->0
        } else if format == FileFormat::OGG_VORBIS_160 {
            b->0
        } else {
            c->0
        };
        assert(files[i] == (format, file_id));
    }
}

/// How many bytes a second of each format takes: 128 for every kbit/s that it is known
/// for, and those of 320 kbit/s where that is not known.
pub proof fn law_data_rates(format: FileFormat, bytes: usize)
    requires
        bytes == kbits(format) * 1024 / 8,
    ensures
        bytes == 12288 <==> format == FileFormat::OGG_VORBIS_96 || format == FileFormat::MP3_96,
        bytes == 16384 <==> format == FileFormat::MP4_128 || format == FileFormat::MP4_128_DUAL,
        bytes == 20480 <==> format == FileFormat::OGG_VORBIS_160 || format == FileFormat::MP3_160
            || format == FileFormat::MP3_160_ENC || format == FileFormat::AAC_160,
        bytes == 32768 <==> format == FileFormat::MP3_256,
        bytes == 40960 <==> format == FileFormat::OGG_VORBIS_320 || format == FileFormat::MP3_320
            || format == FileFormat::AAC_320 || format == FileFormat::OTHER3 || format
            == FileFormat::OTHER5,
{
}

/// What a reference points to is the item itself.
pub proof fn law_pointee(item: Option<&AudioItem>)
    ensures
        item is None <==> pointee(item) is None,
        item matches Some(item) ==> pointee(Some(item)) == Some(*item),
{
}

/// An item that can be played is played itself. For one that cannot, the first of its
/// alternatives that can be played is taken, and nothing if there is none; without a list
/// of alternatives nothing is.
pub proof fn law_first_available_alternative_is_played(
    audio: AudioItem,
    alternatives: Seq<AudioItem>,
    found: Option<AudioItem>,
)
    requires
        found == available_alternative(audio, alternatives),
    ensures
        audio.available ==> found == Some(audio),
        !audio.available && audio.alternatives is None ==> found is None,
        !audio.available && audio.alternatives is Some ==> {
            &&& found is None <==> forall|i: int|
                0 <= i < alternatives.len() ==> !(#[trigger] alternatives[i]).available
            &&& forall|i: int|
                0 <= i < alternatives.len() && (#[trigger] alternatives[i]).available && (forall|
                    j: int,
                |
                    0 <= j < i ==> !(#[trigger] alternatives[j]).available) ==> found == Some(
                    alternatives[i],
                )
        },
{
    lemma_first_available(alternatives);
    assert forall|i: int|
        0 <= i < alternatives.len() && (#[trigger] alternatives[i]).available && (forall|j: int|
            0 <= j < i ==> !(#[trigger] alternatives[j]).available) implies first_available(
        alternatives,
    ) == Some(alternatives[i]) by {
        lemma_first_available_is(alternatives, i);
    }
}

proof fn lemma_first_available_is(items: Seq<AudioItem>, i: int)
    requires
        0 <= i < items.len(),
        items[i].available,
        forall|j: int| 0 <= j < i ==> !(#[trigger] items[j]).available,
    ensures
        first_available(items) == Some(items[i]),
    decreases items.len(),
{
    if i > 0 {
        assert(!items[0].available);
        assert(forall|j: int|
            0 <= j < i - 1 ==> #[trigger] items.drop_first()[j] == items[j + 1]);
        lemma_first_available_is(items.drop_first(), i - 1);
    }
}

/// Once it is known what to play, the file that is opened is the one that does best for
/// the bitrate that is asked for: a Vorbis file of the played item, with its data rate,
/// where the item lists no better one and none of that format before it. It is read from
/// its beginning, and its key is asked for under the identifier that was given.
pub proof fn law_download_opens_the_best_file(
    stage: DownloadStage,
    event: DownloadEvent,
    spotify_id: SpotifyId,
    bitrate: Bitrate,
    next: (DownloadStage, DownloadAction),
    item: AudioItem,
    i: int,
)
    requires
        (next.0, next.1@) == download_step(stage, event, spotify_id, bitrate),
        ({
            ||| stage is Item && event == DownloadEvent::Item(Some(item)) && item.available
            ||| stage == (DownloadStage::Alternatives { audio: item }) && event is Alternatives
                && item.available
            ||| {
                &&& stage matches DownloadStage::Alternatives { audio }
                &&& event matches DownloadEvent::Alternatives(alternatives)
                &&& !audio.available
                &&& audio.alternatives is Some
                &&& exists|k: int|
                    0 <= k < alternatives@.len() && #[trigger] alternatives@[k] == item
                        && item.available && forall|l: int|
                        0 <= l < k ==> !(#[trigger] alternatives@[l]).available
            }
        }),
        0 <= i < item.files@.len(),
        item.files@[i].0 == FileFormat::OGG_VORBIS_96 || item.files@[i].0
            == FileFormat::OGG_VORBIS_160 || item.files@[i].0 == FileFormat::OGG_VORBIS_320,
        forall|j: int| 0 <= j < i ==> (#[trigger] item.files@[j]).0 != item.files@[i].0,
        forall|j: int|
            0 <= j < item.files@.len() ==> match (bitrate, (#[trigger] item.files@[j]).0) {
                (Bitrate::Bitrate96, FileFormat::OGG_VORBIS_96) => item.files@[i].0
                    == FileFormat::OGG_VORBIS_96,
                (Bitrate::Bitrate96, FileFormat::OGG_VORBIS_160) => item.files@[i].0
                    != FileFormat::OGG_VORBIS_320,
                (Bitrate::Bitrate160, FileFormat::OGG_VORBIS_160) => item.files@[i].0
                    == FileFormat::OGG_VORBIS_160,
                (Bitrate::Bitrate160, FileFormat::OGG_VORBIS_96) => item.files@[i].0
                    != FileFormat::OGG_VORBIS_320,
                (Bitrate::Bitrate320, FileFormat::OGG_VORBIS_320) => item.files@[i].0
                    == FileFormat::OGG_VORBIS_320,
                (Bitrate::Bitrate320, FileFormat::OGG_VORBIS_160) => item.files@[i].0
                    != FileFormat::OGG_VORBIS_96,
                _ => true,
            },
    ensures
        next.0 is File,
        next.1 matches DownloadAction::OpenFile {
            spotify_id: asked,
            file_id,
            bytes_per_second,
            play_from_beginning,
        } && {
            &&& asked == spotify_id
            &&& file_id == item.files@[i].1
            &&& bytes_per_second == (if item.files@[i].0 == FileFormat::OGG_VORBIS_96 {
                12288int
            } else if item.files@[i].0 == FileFormat::OGG_VORBIS_160 {
                20480int
            } else {
                40960int
            })
            &&& play_from_beginning
        },
{
    let files = item.files@;
    let selected = first_file(preference(bitrate), files);
    law_no_better_file_is_listed(files, bitrate, selected);
    assert(selected is Some) by {
        assert(files[i].0 == FileFormat::OGG_VORBIS_96 || files[i].0 == FileFormat::OGG_VORBIS_160
            || files[i].0 == FileFormat::OGG_VORBIS_320);
    }
    let (format, file_id) = selected->0;
    let k = choose|k: int|
        0 <= k < files.len() && #[trigger] files[k] == (format, file_id) && forall|j: int|
            0 <= j < k ==> (#[trigger] files[j]).0 != format;
    assert(files[k].0 == format);
    assert(k == i);
    if let DownloadStage::Alternatives { audio } = stage {
        if let DownloadEvent::Alternatives(alternatives) = event {
            law_first_available_alternative_is_played(
                audio,
                alternatives@,
                available_alternative(audio, alternatives@),
            );
        }
    }
}

/// An item that can be played and has a file for the bitrate that is asked for is
/// downloaded in that file, with the data rate of that bitrate.
pub proof fn law_wanted_bitrate_is_downloaded(
    audio: AudioItem,
    spotify_id: SpotifyId,
    bitrate: Bitrate,
    next: (DownloadStage, DownloadAction),
    i: int,
)
    requires
        audio.available,
        audio.wf(),
        0 <= i < audio.files@.len(),
        audio.files@[i].0 == (match bitrate {
            Bitrate::Bitrate96 => FileFormat::OGG_VORBIS_96,
            Bitrate::Bitrate160 => FileFormat::OGG_VORBIS_160,
            Bitrate::Bitrate320 => FileFormat::OGG_VORBIS_320,
        }),
        (next.0, next.1@) == download_step(
            DownloadStage::Item,
            DownloadEvent::Item(Some(audio)),
            spotify_id,
            bitrate,
        ),
    ensures
        next.0 is File,
        next.1 matches DownloadAction::OpenFile { file_id, bytes_per_second, .. } && {
            &&& file_id == audio.files@[i].1
            &&& bitrate == Bitrate::Bitrate96 ==> bytes_per_second == 12288
            &&& bitrate == Bitrate::Bitrate160 ==> bytes_per_second == 20480
            &&& bitrate == Bitrate::Bitrate320 ==> bytes_per_second == 40960
        },
{
    law_download_opens_the_best_file(
        DownloadStage::Item,
        DownloadEvent::Item(Some(audio)),
        spotify_id,
        bitrate,
        next,
        audio,
        i,
    );
}

/// An item that cannot be played leads to its alternatives, all of them in their order,
/// and the download keeps the item until they have come. Without a list of alternatives
/// the download gives up, and so it does if none of them can be played; the message names
/// the item that was asked for.
pub proof fn law_what_is_not_available(
    audio: AudioItem,
    alternatives: Vec<AudioItem>,
    spotify_id: SpotifyId,
    bitrate: Bitrate,
    first: (DownloadStage, DownloadAction),
    second: (DownloadStage, DownloadAction),
)
    requires
        !audio.available,
        (first.0, first.1@) == download_step(
            DownloadStage::Item,
            DownloadEvent::Item(Some(audio)),
            spotify_id,
            bitrate,
        ),
        (second.0, second.1@) == download_step(
            DownloadStage::Alternatives { audio },
            DownloadEvent::Alternatives(alternatives),
            spotify_id,
            bitrate,
        ),
    ensures
        audio.alternatives matches Some(ids) ==> {
            &&& first.0 == (DownloadStage::Alternatives { audio })
            &&& first.1 matches DownloadAction::FetchAlternatives(asked) && asked@ == ids@
        },
        audio.alternatives is None ==> {
            &&& first.0 is Finished
            &&& first.1 matches DownloadAction::GiveUp(message) && message@ == "<"@ + audio.uri@
                + "> is not available"@
        },
        audio.alternatives is None || (forall|i: int|
            0 <= i < alternatives@.len() ==> !(#[trigger] alternatives@[i]).available) ==> {
            &&& second.0 is Finished
            &&& second.1 matches DownloadAction::GiveUp(message) && message@ == "<"@ + audio.uri@
                + "> is not available"@
        },
{
    law_first_available_alternative_is_played(
        audio,
        alternatives@,
        available_alternative(audio, alternatives@),
    );
}

/// Whatever cannot be loaded ends the download with a message of its own.
pub proof fn law_failures_end_the_download(
    stage: DownloadStage,
    event: DownloadEvent,
    spotify_id: SpotifyId,
    bitrate: Bitrate,
    next: (DownloadStage, DownloadAction),
)
    requires
        (next.0, next.1@) == download_step(stage, event, spotify_id, bitrate),
        ({
            ||| stage is Item && event == DownloadEvent::Item(None)
            ||| stage is File && event == DownloadEvent::File(false)
            ||| stage is Key && event == DownloadEvent::Key(false)
        }),
    ensures
        next.0 is Finished,
        next.1 matches DownloadAction::GiveUp(message) && {
            &&& stage is Item ==> message@ == "Unable to load audio item."@
            &&& stage is File ==> message@ == "Unable to load encrypted file."@
            &&& stage is Key ==> message@ == "Unable to load decryption key"@
        },
{
}

/// Once the file is open its key is waited for, and once that has come the data is written
/// out, all but the 167 bytes of the header.
pub proof fn law_file_then_key_then_data(
    spotify_id: SpotifyId,
    bitrate: Bitrate,
    opened: (DownloadStage, DownloadAction),
    loaded: (DownloadStage, DownloadAction),
)
    requires
        (opened.0, opened.1@) == download_step(
            DownloadStage::File,
            DownloadEvent::File(true),
            spotify_id,
            bitrate,
        ),
        (loaded.0, loaded.1@) == download_step(
            DownloadStage::Key,
            DownloadEvent::Key(true),
            spotify_id,
            bitrate,
        ),
    ensures
        opened.0 is Key,
        opened.1 is AwaitKey,
        loaded.0 is Finished,
        loaded.1 == (DownloadAction::Stream { offset: 167 }),
{
}

/// A download takes what it has been waiting for, whatever came of it. Once it is over it
/// takes nothing.
pub proof fn law_what_a_download_awaits(stage: DownloadStage, event: DownloadEvent)
    ensures
        stage is Item ==> (awaited(stage, event) <==> event is Item),
        stage is Alternatives ==> (awaited(stage, event) <==> event is Alternatives),
        stage is File ==> (awaited(stage, event) <==> event is File),
        stage is Key ==> (awaited(stage, event) <==> event is Key),
        stage is Finished ==> !awaited(stage, event),
{
}

/// Nothing stands in the way of a download but an item that is to be played and has no
/// Vorbis file.
pub proof fn law_only_vorbis_is_playable(
    stage: DownloadStage,
    event: DownloadEvent,
    bitrate: Bitrate,
)
    requires
        awaited(stage, event),
    ensures
        event is File || event is Key || event == DownloadEvent::Item(None) ==> event_playable(
            stage,
            event,
            bitrate,
        ),
        event matches DownloadEvent::Item(Some(audio)) ==> (event_playable(stage, event, bitrate)
            <==> !audio.available || exists|i: int|
                0 <= i < audio.files@.len() && ((#[trigger] audio.files@[i]).0 == FileFormat::OGG_VORBIS_96
                    || audio.files@[i].0 == FileFormat::OGG_VORBIS_160 || audio.files@[i].0
                    == FileFormat::OGG_VORBIS_320)),
        stage matches DownloadStage::Alternatives { audio } ==> (
        event matches DownloadEvent::Alternatives(alternatives) ==> {
            &&& audio.available ==> (event_playable(stage, event, bitrate) <==> exists|i: int|
                0 <= i < audio.files@.len() && ((#[trigger] audio.files@[i]).0 == FileFormat::OGG_VORBIS_96
                    || audio.files@[i].0 == FileFormat::OGG_VORBIS_160 || audio.files@[i].0
                    == FileFormat::OGG_VORBIS_320))
            &&& !audio.available && (audio.alternatives is None || forall|k: int|
                0 <= k < alternatives@.len() ==> !(#[trigger] alternatives@[k]).available)
                ==> event_playable(stage, event, bitrate)
            &&& !audio.available && audio.alternatives is Some ==> forall|k: int|
                0 <= k < alternatives@.len() && (#[trigger] alternatives@[k]).available && (forall|
                    l: int,
                |
                    0 <= l < k ==> !(#[trigger] alternatives@[l]).available) ==> (event_playable(
                    stage,
                    event,
                    bitrate,
                ) <==> exists|i: int|
                    0 <= i < alternatives@[k].files@.len() && ((#[trigger] alternatives@[k].files@[i]).0 == FileFormat::OGG_VORBIS_96
                        || alternatives@[k].files@[i].0 == FileFormat::OGG_VORBIS_160 || alternatives@[k].files@[i].0
                        == FileFormat::OGG_VORBIS_320))
        }),
{
    assert forall|files: Seq<(FileFormat, FileId)>|
        (#[trigger] first_file(preference(bitrate), files) is Some) == (exists|i: int|
            0 <= i < files.len() && ((#[trigger] files[i]).0 == FileFormat::OGG_VORBIS_96
                || files[i].0 == FileFormat::OGG_VORBIS_160 || files[i].0
                == FileFormat::OGG_VORBIS_320)) by {
        law_no_better_file_is_listed(files, bitrate, first_file(preference(bitrate), files));
    }
    if let DownloadStage::Alternatives { audio } = stage {
        if let DownloadEvent::Alternatives(alternatives) = event {
            law_first_available_alternative_is_played(
                audio,
                alternatives@,
                available_alternative(audio, alternatives@),
            );
        }
    }
}

/// What the thread that copies the data does, and why: it reads at the start and after
/// every flush, writes just what it has read, flushes what it has written, is done when
/// there is nothing left to read, and stops with an error when something has failed.
pub proof fn law_copying(input: CopyInput, step: CopyStep)
    requires
        step == copy_step(input),
    ensures
        step.action is Read <==> input is Start || input == CopyInput::Flushed(true),
        step.action is Write <==> (input matches CopyInput::Read(Some(len)) && len > 0),
        step.action matches CopyAction::Write { len } ==> input == CopyInput::Read(Some(len)),
        step.action is Flush <==> input == CopyInput::Written(true),
        step.signal == Some(Signal::Alive) <==> step.action is Read,
        step.signal == Some(Signal::Done) <==> input == CopyInput::Read(Some(0)),
        step.signal == Some(Signal::Error) <==> input == CopyInput::Read(None) || input
            == CopyInput::Written(false) || input == CopyInput::Flushed(false),
        step.action is Stop <==> step.signal == Some(Signal::Done) || step.signal == Some(
            Signal::Error,
        ),
{
}

/// While the data is copied, a download that has waited for 30 seconds in vain is told
/// from one that has ended otherwise, and every sign of life starts these 30 seconds
/// anew. What is polled comes in turn, and any sign of life starts a new turn.
pub proof fn law_waiting(input: OggInput, source: OggSource, step: OggStep)
    requires
        (source, step) == ogg_step(input),
    ensures
        step == (OggStep::Finished { timed_out: true }) <==> input == OggInput::ReadTimeout(true),
        step == (OggStep::Finished { timed_out: false }) <==> {
            ||| input matches OggInput::CtrlC(polled) && polled is Item
            ||| input == OggInput::ThreadComm(Polled::Item(Signal::Done))
            ||| input == OggInput::ThreadComm(Polled::Item(Signal::Error))
        },
        step is ResetTimeout <==> input == OggInput::ThreadComm(Polled::Item(Signal::Alive)),
        step matches OggStep::ResetTimeout { seconds } ==> seconds == 30,
        step is NotReady <==> (input matches OggInput::ThreadComm(polled) && !(polled is Item)),
        step is Poll <==> {
            ||| input == OggInput::ReadTimeout(false)
            ||| input matches OggInput::CtrlC(polled) && !(polled is Item)
        },
        step is Poll && input is ReadTimeout ==> source == OggSource::CtrlC,
        step is Poll && input is CtrlC ==> source == OggSource::ThreadComm,
        step is ResetTimeout || step is NotReady ==> source == OggSource::ReadTimeout,
{
}

/// Whatever a source gives is taken, but for a failure of it.
pub proof fn law_what_sources_give(source: OggSource, input: OggInput)
    ensures
        comes_from(input, source) <==> match input {
            OggInput::ReadTimeout(_) => source == OggSource::ReadTimeout,
            OggInput::CtrlC(polled) => source == OggSource::CtrlC && !(polled is Failed),
            OggInput::ThreadComm(polled) => source == OggSource::ThreadComm && !(polled is Failed),
        },
{
}

} // verus!
