//! Media kinds, the yt-dlp arguments for each, and the decisions taken
//! around a download: where it lands, which of its files are sent, under
//! which name an opus file is kept, and what the finished download holds.
use vstd::prelude::*;
use crate::boundary::{
    is_lower_hex, is_v4_uuid_text, opus_capture, opus_match, random_uuid_text, rfc3339_seconds,
    rfc3339_seconds_layout, rfc3339_seconds_text, rfc3339_separator_at, uuid_hyphen_at,
    is_ascii_digit, last_opus_at, opus_at, push_char,
    RFC3339_LIMIT_SECS,
};

verus! {

/// The kinds of media the bot delivers.
#[derive(Debug, Clone, Copy, PartialEq, Eq, Structural)]
pub enum FileType {
    Mp3,
    Mp4,
    Voice,
    Gif,
}

/// The short name of each media kind: the audio format or container it is
/// fetched in (a voice message is opus audio).
pub open spec fn file_type_name(ft: FileType) -> Seq<char> {
    match ft {
        FileType::Mp3 => "mp3"@,
        FileType::Mp4 => "mp4"@,
        FileType::Voice => "opus"@,
        FileType::Gif => "gif"@,
    }
}

impl FileType {
    pub fn as_str(&self) -> (r: &'static str)
        ensures
            r@ == file_type_name(*self),
    {
        match self {
            FileType::Mp3 => "mp3",
            FileType::Mp4 => "mp4",
            FileType::Voice => "opus",
            FileType::Gif => "gif",
        }
    }
}

impl Default for FileType {
    fn default() -> (r: Self)
        ensures
            r == FileType::Mp3,
    {
        FileType::Mp3
    }
}

// ---------------------------------------------------------------------------
// downloader arguments

/// One command-line argument of yt-dlp: a flag and, for some flags, its value.
#[derive(Debug, Clone, PartialEq, Eq)]
pub struct DownloadArg {
    pub flag: String,
    pub value: Option<String>,
}

pub open spec fn opt_text(o: Option<String>) -> Option<Seq<char>> {
    match o {
        Some(s) => Some(s@),
        None => None,
    }
}

impl View for DownloadArg {
    type V = (Seq<char>, Option<Seq<char>>);

    open spec fn view(&self) -> (Seq<char>, Option<Seq<char>>) {
        (self.flag@, opt_text(self.value))
    }
}

pub open spec fn arg_texts(args: Seq<DownloadArg>) -> Seq<(Seq<char>, Option<Seq<char>>)> {
    args.map_values(|a: DownloadArg| a@)
}

fn flag_arg(flag: &str) -> (r: DownloadArg)
    ensures
        r@ == (flag@, None::<Seq<char>>),
{
    DownloadArg { flag: String::from_str(flag), value: None }
}

fn value_arg(flag: &str, value: &str) -> (r: DownloadArg)
    ensures
        r@ == (flag@, Some(value@)),
{
    DownloadArg { flag: String::from_str(flag), value: Some(String::from_str(value)) }
}

/// The arguments with which yt-dlp fetches each kind of media.
pub open spec fn download_args(ft: FileType) -> Seq<(Seq<char>, Option<Seq<char>>)> {
    match ft {
        FileType::Mp3 => seq![
            ("--concurrent-fragments"@, Some("100000"@)),
            ("--skip-playlist-after-errors"@, Some("5000"@)),
            ("--output"@, Some("%(title)s.mp3"@)),
            ("--windows-filenames"@, None),
            ("--no-write-info-json"@, None),
            ("--no-embed-metadata"@, None),
            ("--extract-audio"@, None),
            ("--audio-format"@, Some("mp3"@)),
            ("--audio-quality"@, Some("0"@)),
        ],
        FileType::Mp4 => seq![
            ("--concurrent-fragments"@, Some("100000"@)),
            ("--skip-playlist-after-errors"@, Some("5000"@)),
            ("--max-filesize"@, Some("50M"@)),
            ("--output"@, Some("%(title)s.mp4"@)),
            ("--windows-filenames"@, None),
            ("--no-write-info-json"@, None),
            ("--no-embed-metadata"@, None),
            ("--format"@, Some("bv*[ext=mp4]+ba[ext=m4a]/b[ext=mp4]"@)),
        ],
        FileType::Voice => seq![
            ("--concurrent-fragments"@, Some("100000"@)),
            ("--skip-playlist-after-errors"@, Some("5000"@)),
            ("--windows-filenames"@, None),
            ("--no-write-info-json"@, None),
            ("--no-embed-metadata"@, None),
            ("--extract-audio"@, None),
            ("--audio-format"@, Some("opus"@)),
            ("--audio-quality"@, Some("64K"@)),
        ],
        FileType::Gif => seq![
            ("--concurrent-fragments"@, Some("100000"@)),
            ("--skip-playlist-after-errors"@, Some("5000"@)),
            ("--max-filesize"@, Some("50M"@)),
            ("--output"@, Some("%(title)s.mp4"@)),
            ("--windows-filenames"@, None),
            ("--no-write-info-json"@, None),
            ("--no-embed-metadata"@, None),
            ("--format-sort"@, Some("ext:mp4,codec:h264"@)),
            ("--format"@, Some("bv"@)),
        ],
    }
}

/// What a download is asked to fetch: the link, the kind of media and the
/// arguments handed to yt-dlp.
#[derive(Debug, Clone, PartialEq, Eq)]
pub struct DownloadJob {
    pub url: String,
    pub filetype: FileType,
    pub args: Vec<DownloadArg>,
}

impl View for DownloadJob {
    type V = (FileType, Seq<char>, Seq<(Seq<char>, Option<Seq<char>>)>);

    open spec fn view(&self) -> Self::V {
        (self.filetype, self.url@, arg_texts(self.args@))
    }
}

/// The job that fetches `url` as media of kind `ft`.
pub open spec fn job_text(ft: FileType, url: Seq<char>) -> (
    FileType,
    Seq<char>,
    Seq<(Seq<char>, Option<Seq<char>>)>,
) {
    (ft, url, download_args(ft))
}

/// `job` fetches `url` as media of kind `ft`.
pub open spec fn is_job_for(job: DownloadJob, ft: FileType, url: Seq<char>) -> bool {
    job@ == job_text(ft, url)
}

/// Audio as mp3.
pub fn mp3(url: String) -> (r: DownloadJob)
    ensures
        is_job_for(r, FileType::Mp3, url@),
{
    let args = vec![
        value_arg("--concurrent-fragments", "100000"),
        value_arg("--skip-playlist-after-errors", "5000"),
        value_arg("--output", "%(title)s.mp3"),
        flag_arg("--windows-filenames"),
        flag_arg("--no-write-info-json"),
        flag_arg("--no-embed-metadata"),
        flag_arg("--extract-audio"),
        value_arg("--audio-format", "mp3"),
        value_arg("--audio-quality", "0"),
    ];
    assert(arg_texts(args@) =~= download_args(FileType::Mp3));
    DownloadJob { url, filetype: FileType::Mp3, args }
}

/// Video as mp4, at most 50 MB.
pub fn mp4(url: String) -> (r: DownloadJob)
    ensures
        is_job_for(r, FileType::Mp4, url@),
{
    let args = vec![
        value_arg("--concurrent-fragments", "100000"),
        value_arg("--skip-playlist-after-errors", "5000"),
        value_arg("--max-filesize", "50M"),
        value_arg("--output", "%(title)s.mp4"),
        flag_arg("--windows-filenames"),
        flag_arg("--no-write-info-json"),
        flag_arg("--no-embed-metadata"),
        value_arg("--format", "bv*[ext=mp4]+ba[ext=m4a]/b[ext=mp4]"),
    ];
    assert(arg_texts(args@) =~= download_args(FileType::Mp4));
    DownloadJob { url, filetype: FileType::Mp4, args }
}

/// Audio as opus, to be sent as a voice message.
pub fn ogg(url: String) -> (r: DownloadJob)
    ensures
        is_job_for(r, FileType::Voice, url@),
{
    let args = vec![
        value_arg("--concurrent-fragments", "100000"),
        value_arg("--skip-playlist-after-errors", "5000"),
        flag_arg("--windows-filenames"),
        flag_arg("--no-write-info-json"),
        flag_arg("--no-embed-metadata"),
        flag_arg("--extract-audio"),
        value_arg("--audio-format", "opus"),
        value_arg("--audio-quality", "64K"),
    ];
    assert(arg_texts(args@) =~= download_args(FileType::Voice));
    DownloadJob { url, filetype: FileType::Voice, args }
}

/// Video only, as mp4, to be sent as an animation.
pub fn gif(url: String) -> (r: DownloadJob)
    ensures
        is_job_for(r, FileType::Gif, url@),
{
    let args = vec![
        value_arg("--concurrent-fragments", "100000"),
        value_arg("--skip-playlist-after-errors", "5000"),
        value_arg("--max-filesize", "50M"),
        value_arg("--output", "%(title)s.mp4"),
        flag_arg("--windows-filenames"),
        flag_arg("--no-write-info-json"),
        flag_arg("--no-embed-metadata"),
        value_arg("--format-sort", "ext:mp4,codec:h264"),
        value_arg("--format", "bv"),
    ];
    assert(arg_texts(args@) =~= download_args(FileType::Gif));
    DownloadJob { url, filetype: FileType::Gif, args }
}

/// The job for media of kind `ft`.
pub fn job_for(ft: FileType, url: String) -> (r: DownloadJob)
    ensures
        is_job_for(r, ft, url@),
{
    match ft {
        FileType::Mp3 => mp3(url),
        FileType::Mp4 => mp4(url),
        FileType::Voice => ogg(url),
        FileType::Gif => gif(url),
    }
}

// ---------------------------------------------------------------------------
// where a download lands and which of its files are sent

/// The directory under which every download gets a folder of its own.
pub open spec fn downloads_root() -> Seq<char> {
    "./downloads/"@
}

/// The folder of the download with identifier `id`.
pub open spec fn download_folder_text(id: Seq<char>) -> Seq<char> {
    downloads_root() + id
}

/// The folder of the download with identifier `id`.
pub fn download_folder(id: &str) -> (r: String)
    ensures
        r@ == download_folder_text(id@),
{
    let mut s = String::from_str("./downloads/");
    s.append(id);
    s
}

/// A fresh folder for a download, named by a random version 4 UUID.
pub fn new_download_folder() -> (r: String)
    ensures
        exists|id: Seq<char>| is_v4_uuid_text(id) && r@ == download_folder_text(id),
{
    let id = random_uuid_text();
    download_folder(id.as_str())
}

/// The extension by which the downloaded files of each kind are found:
/// a GIF is fetched as an mp4 video.
pub open spec fn found_extension(ft: FileType) -> Seq<char> {
    match ft {
        FileType::Gif => "mp4"@,
        _ => file_type_name(ft),
    }
}

/// The glob pattern that lists the downloaded files of kind `ft` in `folder`.
pub open spec fn file_pattern_text(folder: Seq<char>, ft: FileType) -> Seq<char> {
    folder + "/*"@ + found_extension(ft)
}

/// The glob pattern that lists the downloaded files of kind `ft` in `folder`.
pub fn file_pattern(folder: &str, ft: FileType) -> (r: String)
    ensures
        r@ == file_pattern_text(folder@, ft),
{
    let mut s = String::from_str(folder);
    s.append("/*");
    match ft {
        FileType::Gif => s.append("mp4"),
        _ => s.append(ft.as_str()),
    }
    s
}

/// Telegram takes files from bots only below this size, in bytes.
pub const UPLOAD_LIMIT_BYTES: u64 = 50_000_000;

/// A file of `size` bytes can be sent.
pub fn fits_upload_limit(size: u64) -> (r: bool)
    ensures
        r == (size < UPLOAD_LIMIT_BYTES),
{
    size < UPLOAD_LIMIT_BYTES
}

/// One character of a timestamp as it stands in a file name: `:` becomes
/// `-`, `T` becomes `_`, `Z` is dropped.
pub open spec fn stamp_char(c: char) -> Seq<char> {
    if c == ':' {
        seq!['-']
    } else if c == 'T' {
        seq!['_']
    } else if c == 'Z' {
        Seq::empty()
    } else {
        seq![c]
    }
}

/// A timestamp as it stands in a file name.
pub open spec fn file_stamp(t: Seq<char>) -> Seq<char>
    decreases t.len(),
{
    if t.len() == 0 {
        Seq::empty()
    } else {
        file_stamp(t.drop_last()) + stamp_char(t.last())
    }
}

/// The name under which an opus file is kept in `folder`, given the RFC 3339
/// text of the time it was renamed.
pub open spec fn audio_name_for(folder: Seq<char>, text: Seq<char>) -> Seq<char> {
    folder + "/audio_"@ + file_stamp(text) + ".ogg"@
}

/// The name under which an opus file downloaded at `secs` is kept in `folder`.
pub open spec fn audio_name_text(folder: Seq<char>, secs: u64) -> Seq<char> {
    audio_name_for(folder, rfc3339_seconds_text(secs))
}

/// Appends `t` with its timestamp characters replaced as `stamp_char` says.
fn push_file_stamp(s: &mut String, t: &str)
    ensures
        final(s)@ == old(s)@ + file_stamp(t@),
{
    let n = t.unicode_len();
    let mut i: usize = 0;
    while i < n
        invariant
            n == t@.len(),
            i <= n,
            s@ == old(s)@ + file_stamp(t@.subrange(0, i as int)),
        decreases n - i,
    {
        let c = t.get_char(i);
        let ghost before = s@;
        if c == ':' {
            push_char(s, '-');
        } else if c == 'T' {
            push_char(s, '_');
        } else if c != 'Z' {
            push_char(s, c);
        }
        proof {
            let p = t@.subrange(0, i + 1);
            assert(p.drop_last() =~= t@.subrange(0, i as int));
            assert(p.last() == c);
            assert(s@ =~= before + stamp_char(c));
        }
        i = i + 1;
    }
    assert(t@.subrange(0, n as int) =~= t@);
}

/// The name under which an opus file is kept in `folder`, given the RFC 3339
/// text `rfc3339` of the time it was renamed: `{folder}/audio_{stamp}.ogg`,
/// the stamp being the text with `:` as `-`, `T` as `_` and no `Z`.
pub fn audio_name_from_rfc3339(folder: &str, rfc3339: &str) -> (r: String)
    ensures
        r@ == audio_name_for(folder@, rfc3339@),
{
    let mut s = String::from_str(folder);
    s.append("/audio_");
    push_file_stamp(&mut s, rfc3339);
    s.append(".ogg");
    s
}

/// The name under which an opus file downloaded at `secs` (seconds since
/// the Unix epoch) is kept in `folder`: `{folder}/audio_{stamp}.ogg`.
pub fn audio_file_name(folder: &str, secs: u64) -> (r: String)
    requires
        secs < RFC3339_LIMIT_SECS,
    ensures
        r@ == audio_name_text(folder@, secs),
        rfc3339_seconds_layout(rfc3339_seconds_text(secs), secs),
        forall|other: u64|
            other < RFC3339_LIMIT_SECS && other != secs ==> #[trigger] rfc3339_seconds_text(other)
                != rfc3339_seconds_text(secs),
{
    let stamp = rfc3339_seconds(secs);
    audio_name_from_rfc3339(folder, stamp.as_str())
}

/// What becomes of one file that the download pattern found.
#[derive(Debug, Clone, PartialEq, Eq)]
pub enum EntryPlan {
    /// Too large to send: left where it is.
    Skip,
    /// Sent under its own path.
    Keep(String),
    /// Renamed from `from` to `to`, then sent from `to`.
    Rename { from: String, to: String },
}

/// An opus file: its path ends in `.opus`.
pub open spec fn is_opus_file(path: Seq<char>) -> bool {
    path.len() >= 5 && opus_at(path, path.len() - 5)
}

/// Keeping the file at `path` of `size` bytes asks for the time: it is an
/// opus file small enough to be sent, which is renamed to a timestamped name.
pub open spec fn entry_needs_stamp(path: Seq<char>, size: u64) -> bool {
    size < UPLOAD_LIMIT_BYTES && is_opus_file(path)
}

/// What becomes of the file at `path` of `size` bytes found in `folder` at
/// `secs`: too large files are skipped; an opus file is renamed to an
/// `.ogg` audio name, which Telegram needs to show a voice message's wave;
/// any other file is sent as it is.
pub open spec fn entry_plan_matches(
    r: EntryPlan,
    folder: Seq<char>,
    path: Seq<char>,
    size: u64,
    secs: u64,
) -> bool {
    if size >= UPLOAD_LIMIT_BYTES {
        r is Skip
    } else if is_opus_file(path) {
        r matches EntryPlan::Rename { from, to } && from@ == path && to@ == audio_name_text(
            folder,
            secs,
        )
    } else {
        r matches EntryPlan::Keep(p) && p@ == path
    }
}

/// Whether keeping the file at `path` of `size` bytes asks for the time.
pub fn needs_timestamp(path: &str, size: u64) -> (r: bool)
    ensures
        r == entry_needs_stamp(path@, size),
{
    if !fits_upload_limit(size) {
        return false;
    }
    proof {
        lemma_whole_capture(path@);
    }
    match opus_match(path) {
        Some(m) => {
            let whole = String::from_str(path);
            m == whole
        },
        None => false,
    }
}

/// Decides what becomes of the file at `path` of `size` bytes found in
/// `folder`; `secs` (seconds since the Unix epoch) names a renamed file.
pub fn plan_entry(folder: &str, path: &str, size: u64, secs: u64) -> (r: EntryPlan)
    requires
        entry_needs_stamp(path@, size) ==> secs < RFC3339_LIMIT_SECS,
    ensures
        entry_plan_matches(r, folder@, path@, size, secs),
{
    if !fits_upload_limit(size) {
        EntryPlan::Skip
    } else if needs_timestamp(path, size) {
        let to = audio_file_name(folder, secs);
        EntryPlan::Rename { from: String::from_str(path), to }
    } else {
        EntryPlan::Keep(String::from_str(path))
    }
}

impl EntryPlan {
    /// The path from which the file is sent, if it is sent.
    pub fn delivered_path(&self) -> (r: Option<String>)
        ensures
            match *self {
                EntryPlan::Skip => r is None,
                EntryPlan::Keep(p) => r matches Some(q) && q@ == p@,
                EntryPlan::Rename { from, to } => r matches Some(q) && q@ == to@,
            },
    {
        match self {
            EntryPlan::Skip => None,
            EntryPlan::Keep(p) => Some(p.clone()),
            EntryPlan::Rename { from: _, to } => Some(to.clone()),
        }
    }
}

/// The files a download delivers.
#[derive(Debug, Clone, PartialEq, Eq)]
pub struct Downloads {
    pub filetype: FileType,
    pub paths: Vec<String>,
    pub folder: String,
}

impl Default for Downloads {
    fn default() -> (r: Self)
        ensures
            r.filetype == FileType::Mp3,
            r.paths@.len() == 0,
            r.folder@ == Seq::<char>::empty(),
    {
        Downloads { filetype: FileType::Mp3, paths: Vec::new(), folder: String::new() }
    }
}

impl View for Downloads {
    type V = (FileType, Seq<Seq<char>>, Seq<char>);

    open spec fn view(&self) -> Self::V {
        (self.filetype, self.paths@.map_values(|p: String| p@), self.folder@)
    }
}

impl Downloads {
    /// A download of kind `filetype` into `folder`, with no file yet.
    pub fn new(filetype: FileType, folder: String) -> (r: Self)
        ensures
            r@ == (filetype, Seq::<Seq<char>>::empty(), folder@),
    {
        let r = Downloads { filetype, paths: Vec::new(), folder };
        assert(r@.1 =~= Seq::<Seq<char>>::empty());
        r
    }

    /// Adds the file that `plan` sends, if it sends one.
    pub fn record(&mut self, plan: &EntryPlan)
        ensures
            final(self).filetype == old(self).filetype,
            final(self).folder@ == old(self).folder@,
            match *plan {
                EntryPlan::Skip => final(self)@.1 == old(self)@.1,
                EntryPlan::Keep(p) => final(self)@.1 == old(self)@.1.push(p@),
                EntryPlan::Rename { from, to } => final(self)@.1 == old(self)@.1.push(to@),
            },
    {
        let ghost before = self.paths@;
        match plan.delivered_path() {
            Some(p) => {
                self.paths.push(p);
                assert(self.paths@.map_values(|q: String| q@) =~= before.map_values(
                    |q: String| q@,
                ).push(p@));
            },
            None => {},
        }
    }

    /// Nothing to send: the folder is then removed at once.
    pub fn is_empty(&self) -> (r: bool)
        ensures
            r == (self.paths@.len() == 0),
    {
        self.paths.len() == 0
    }

    /// The folder to remove as soon as the download ends: its own folder when
    /// it has nothing to send, none otherwise (the folder of a download with
    /// files is removed after they are sent).
    pub fn folder_to_remove(&self) -> (r: Option<String>)
        ensures
            match r {
                Some(f) => self.paths@.len() == 0 && f@ == self.folder@,
                None => self.paths@.len() != 0,
            },
    {
        if self.is_empty() {
            Some(self.folder.clone())
        } else {
            None
        }
    }
}

// ---------------------------------------------------------------------------
// laws

/// A download's folder stays inside the downloads directory: after
/// `./downloads/` its name holds neither `/` nor `.`, so removing the folder
/// removes nothing outside it.
pub proof fn law_download_folder_inside(id: Seq<char>)
    requires
        is_v4_uuid_text(id),
    ensures
        download_folder_text(id).len() == downloads_root().len() + 36,
        download_folder_text(id).subrange(0, downloads_root().len() as int) == downloads_root(),
        forall|i: int|
            downloads_root().len() <= i < download_folder_text(id).len() ==> {
                &&& #[trigger] download_folder_text(id)[i] != '/'
                &&& download_folder_text(id)[i] != '.'
            },
{
    let f = download_folder_text(id);
    let n = downloads_root().len() as int;
    assert(f.subrange(0, n) =~= downloads_root());
    assert forall|i: int| n <= i < f.len() implies #[trigger] f[i] != '/' && f[i] != '.' by {
        assert(f[i] == id[i - n]);
        if uuid_hyphen_at(i - n) {
            assert(id[i - n] == '-');
        } else {
            assert(is_lower_hex(id[i - n]));
        }
    }
}

/// The layout of a timestamp in a file name: `YYYY-MM-DD_HH-MM-SS`.
pub open spec fn file_stamp_layout(s: Seq<char>) -> bool {
    &&& s.len() == 19
    &&& s[4] == '-' && s[7] == '-' && s[10] == '_' && s[13] == '-' && s[16] == '-'
    &&& forall|i: int|
        0 <= i < 19 && !rfc3339_separator_at(i) ==> is_ascii_digit(#[trigger] s[i])
}

/// The character at `j` of the file-name form of an RFC 3339 text.
pub open spec fn stamp_at(t: Seq<char>, j: int) -> char {
    if j == 10 {
        '_'
    } else if j == 13 || j == 16 {
        '-'
    } else {
        t[j]
    }
}

proof fn lemma_file_stamp_prefix(t: Seq<char>, secs: u64, i: int)
    requires
        rfc3339_seconds_layout(t, secs),
        0 <= i <= 19,
    ensures
        file_stamp(t.subrange(0, i)) =~= Seq::new(i as nat, |j: int| stamp_at(t, j)),
    decreases i,
{
    if i > 0 {
        lemma_file_stamp_prefix(t, secs, i - 1);
        let p = t.subrange(0, i);
        assert(p.drop_last() =~= t.subrange(0, i - 1));
        let c = t[i - 1];
        if !rfc3339_separator_at(i - 1) {
            assert(is_ascii_digit(t[i - 1]));
        }
        assert(stamp_char(c) =~= seq![stamp_at(t, i - 1)]);
    }
}

/// The timestamp in an audio file's name reads `YYYY-MM-DD_HH-MM-SS`: the
/// digits of humantime's RFC 3339 text, with `_` between date and time and
/// `-` between the parts of the time, so the name holds no `:`.
pub proof fn law_file_stamp_layout(t: Seq<char>, secs: u64)
    requires
        rfc3339_seconds_layout(t, secs),
    ensures
        file_stamp_layout(file_stamp(t)),
        forall|i: int| 0 <= i < 19 && !rfc3339_separator_at(i) ==> #[trigger] file_stamp(t)[i] == t[i],
        forall|i: int| 0 <= i < 19 ==> #[trigger] file_stamp(t)[i] != ':',
{
    lemma_file_stamp_prefix(t, secs, 19);
    assert(t.drop_last() =~= t.subrange(0, 19));
    assert(file_stamp(t) =~= file_stamp(t.subrange(0, 19)));
    assert forall|i: int| 0 <= i < 19 implies #[trigger] file_stamp(t)[i] != ':' by {
        if !rfc3339_separator_at(i) {
            assert(is_ascii_digit(t[i]));
        }
    }
}

/// Files renamed at distinct instants get distinct names.  The premises
/// are what two calls of `audio_file_name` at `s1` and at `s2` ensure.
pub proof fn law_audio_names_distinct(folder: Seq<char>, s1: u64, s2: u64)
    requires
        s1 != s2,
        rfc3339_seconds_layout(rfc3339_seconds_text(s1), s1),
        rfc3339_seconds_layout(rfc3339_seconds_text(s2), s2),
        rfc3339_seconds_text(s1) != rfc3339_seconds_text(s2),
    ensures
        audio_name_text(folder, s1) != audio_name_text(folder, s2),
{
    let t1 = rfc3339_seconds_text(s1);
    let t2 = rfc3339_seconds_text(s2);
    law_file_stamp_layout(t1, s1);
    law_file_stamp_layout(t2, s2);
    let a = folder + "/audio_"@;
    let n1 = audio_name_text(folder, s1);
    let n2 = audio_name_text(folder, s2);
    if n1 == n2 {
        assert(n1.subrange(a.len() as int, a.len() as int + 19) =~= file_stamp(t1));
        assert(n2.subrange(a.len() as int, a.len() as int + 19) =~= file_stamp(t2));
        assert forall|i: int| 0 <= i < 20 implies t1[i] == t2[i] by {
            if i < 19 && !rfc3339_separator_at(i) {
                assert(file_stamp(t1)[i] == t1[i]);
                assert(file_stamp(t2)[i] == t2[i]);
            }
        }
        assert(t1 =~= t2);
    }
}

/// What `(?s)(.*)(\.opus)` matches is the whole path exactly for the paths
/// that end in `.opus`.
pub proof fn lemma_whole_capture(s: Seq<char>)
    ensures
        (opus_capture(s) == Some(s)) == is_opus_file(s),
{
    if is_opus_file(s) {
        let n = s.len() as int;
        assert(last_opus_at(s, n - 5));
        let q = choose|q: int| last_opus_at(s, q);
        assert(q == n - 5);
        assert(s.subrange(0, n) =~= s);
    }
    if opus_capture(s) == Some(s) {
        let q0 = choose|q: int| opus_at(s, q);
        lemma_last_opus(s, q0);
        let q = choose|q: int| last_opus_at(s, q);
        assert(s.subrange(0, q + 5).len() == s.len());
    }
}

/// When `.opus` stands somewhere in `s`, there is a last place where it stands.
proof fn lemma_last_opus(s: Seq<char>, q0: int)
    requires
        opus_at(s, q0),
    ensures
        exists|q: int| last_opus_at(s, q),
    decreases s.len() - q0,
{
    if exists|q2: int| opus_at(s, q2) && q2 > q0 {
        let q2 = choose|q2: int| opus_at(s, q2) && q2 > q0;
        lemma_last_opus(s, q2);
    } else {
        assert(last_opus_at(s, q0));
    }
}

/// An opus file is renamed, not sent under its own name: a file of
/// sendable size whose path ends in `.opus` is renamed from exactly its path
/// to the `.ogg` audio name in the download's folder.
pub proof fn law_opus_file_renamed(r: EntryPlan, folder: Seq<char>, path: Seq<char>, size: u64, secs: u64)
    requires
        entry_plan_matches(r, folder, path, size, secs),
        size < UPLOAD_LIMIT_BYTES,
        path.len() >= 5,
        path.subrange(path.len() - 5, path.len() as int) == seq!['.', 'o', 'p', 'u', 's'],
    ensures
        r matches EntryPlan::Rename { from, to } && from@ == path && to@ == audio_name_text(folder, secs),
{
}

/// Telegram takes files from bots only below 50 MB: a file that is sent at
/// all is below that size.
pub proof fn law_sent_files_fit(r: EntryPlan, folder: Seq<char>, path: Seq<char>, size: u64, secs: u64)
    requires
        entry_plan_matches(r, folder, path, size, secs),
        !(r is Skip),
    ensures
        size < UPLOAD_LIMIT_BYTES,
{
}

/// A file whose path does not end in `.opus` is sent under its own path
/// when it is small enough.
pub proof fn law_other_file_kept(r: EntryPlan, folder: Seq<char>, path: Seq<char>, size: u64, secs: u64)
    requires
        entry_plan_matches(r, folder, path, size, secs),
        size < UPLOAD_LIMIT_BYTES,
        path.len() < 5 || path.subrange(path.len() - 5, path.len() as int) != seq![
            '.',
            'o',
            'p',
            'u',
            's',
        ],
    ensures
        r matches EntryPlan::Keep(p) && p@ == path,
{
}

/// The files yt-dlp is told to write carry the extension by which the
/// download's files are then found: either the output template ends in
/// `.` and that extension, or (for voice messages, which keep yt-dlp's own
/// template) the extracted audio format is that extension.
pub open spec fn saves_as(args: Seq<(Seq<char>, Option<Seq<char>>)>, ext: Seq<char>) -> bool {
    ||| exists|i: int|
        0 <= i < args.len() && #[trigger] args[i] == ("--output"@, Some("%(title)s."@ + ext))
    ||| {
        &&& forall|i: int| 0 <= i < args.len() ==> (#[trigger] args[i]).0 != "--output"@
        &&& exists|i: int|
            0 <= i < args.len() && #[trigger] args[i] == ("--audio-format"@, Some(ext))
    }
}

/// For every kind of media, the download's arguments save files under the
/// extension that the file pattern looks for.
pub proof fn law_saved_files_are_found(ft: FileType)
    ensures
        saves_as(download_args(ft), found_extension(ft)),
{
    reveal_strlit("%(title)s.");
    reveal_strlit("%(title)s.mp3");
    reveal_strlit("%(title)s.mp4");
    reveal_strlit("mp3");
    reveal_strlit("mp4");
    reveal_strlit("opus");
    let args = download_args(ft);
    match ft {
        FileType::Mp3 => {
            assert("%(title)s.mp3"@ =~= "%(title)s."@ + "mp3"@);
            assert(args[2] == ("--output"@, Some("%(title)s."@ + found_extension(ft))));
        },
        FileType::Mp4 => {
            assert("%(title)s.mp4"@ =~= "%(title)s."@ + "mp4"@);
            assert(args[3] == ("--output"@, Some("%(title)s."@ + found_extension(ft))));
        },
        FileType::Gif => {
            assert("%(title)s.mp4"@ =~= "%(title)s."@ + "mp4"@);
            assert(args[3] == ("--output"@, Some("%(title)s."@ + found_extension(ft))));
        },
        FileType::Voice => {
            reveal_strlit("--output");
            reveal_strlit("--concurrent-fragments");
            reveal_strlit("--skip-playlist-after-errors");
            reveal_strlit("--windows-filenames");
            reveal_strlit("--no-write-info-json");
            reveal_strlit("--no-embed-metadata");
            reveal_strlit("--extract-audio");
            reveal_strlit("--audio-format");
            reveal_strlit("--audio-quality");
            assert forall|i: int| 0 <= i < args.len() implies (#[trigger] args[i]).0 != "--output"@ by {
                assert(args[i].0[3] != "--output"@[3] || args[i].0.len() != "--output"@.len());
            }
            assert(args[6] == ("--audio-format"@, Some(found_extension(ft))));
        },
    }
}

// ---------------------------------------------------------------------------
// what each operation is for, stated over all inputs

/// The short names of the media kinds.
pub proof fn law_file_type_names()
    ensures
        file_type_name(FileType::Mp3) == seq!['m', 'p', '3'],
        file_type_name(FileType::Mp4) == seq!['m', 'p', '4'],
        file_type_name(FileType::Voice) == seq!['o', 'p', 'u', 's'],
        file_type_name(FileType::Gif) == seq!['g', 'i', 'f'],
{
    reveal_strlit("mp3");
    reveal_strlit("mp4");
    reveal_strlit("opus");
    reveal_strlit("gif");
    assert(file_type_name(FileType::Mp3) =~= seq!['m', 'p', '3']);
    assert(file_type_name(FileType::Mp4) =~= seq!['m', 'p', '4']);
    assert(file_type_name(FileType::Voice) =~= seq!['o', 'p', 'u', 's']);
    assert(file_type_name(FileType::Gif) =~= seq!['g', 'i', 'f']);
}

/// A job fetches the link it is given, as the kind it is given, and its
/// arguments depend on the kind alone, never on the link.
pub proof fn law_job_args_follow_kind_only(ft: FileType, url: Seq<char>, other: Seq<char>)
    ensures
        job_text(ft, url).0 == ft,
        job_text(ft, url).1 == url,
        job_text(ft, url).2 == download_args(ft),
        job_text(ft, url).2 == job_text(ft, other).2,
{
}

/// Every kind fetches with many fragments at once, goes on after errors in
/// a playlist, writes names Windows accepts, and writes no info file and
/// no metadata.
pub proof fn law_common_download_args(ft: FileType)
    ensures
        download_args(ft)[0] == ("--concurrent-fragments"@, Some("100000"@)),
        download_args(ft)[1] == ("--skip-playlist-after-errors"@, Some("5000"@)),
        download_args(ft).contains(("--windows-filenames"@, None::<Seq<char>>)),
        download_args(ft).contains(("--no-write-info-json"@, None::<Seq<char>>)),
        download_args(ft).contains(("--no-embed-metadata"@, None::<Seq<char>>)),
{
    let a = download_args(ft);
    match ft {
        FileType::Mp3 => {
            assert(a[3] == ("--windows-filenames"@, None::<Seq<char>>));
            assert(a[4] == ("--no-write-info-json"@, None::<Seq<char>>));
            assert(a[5] == ("--no-embed-metadata"@, None::<Seq<char>>));
        },
        FileType::Voice => {
            assert(a[2] == ("--windows-filenames"@, None::<Seq<char>>));
            assert(a[3] == ("--no-write-info-json"@, None::<Seq<char>>));
            assert(a[4] == ("--no-embed-metadata"@, None::<Seq<char>>));
        },
        _ => {
            assert(a[4] == ("--windows-filenames"@, None::<Seq<char>>));
            assert(a[5] == ("--no-write-info-json"@, None::<Seq<char>>));
            assert(a[6] == ("--no-embed-metadata"@, None::<Seq<char>>));
        },
    }
}

/// An mp3 download extracts the audio as mp3 at the best quality, into a
/// file named by the title with `.mp3`.
pub proof fn law_mp3_args()
    ensures
        download_args(FileType::Mp3).len() == 9,
        download_args(FileType::Mp3)[2] == ("--output"@, Some("%(title)s.mp3"@)),
        download_args(FileType::Mp3)[6] == ("--extract-audio"@, None::<Seq<char>>),
        download_args(FileType::Mp3)[7] == ("--audio-format"@, Some("mp3"@)),
        download_args(FileType::Mp3)[8] == ("--audio-quality"@, Some("0"@)),
{
}

/// An mp4 download takes the best mp4 video merged with m4a audio (or the
/// best single mp4 file), so the video has sound; it stops at 50 MB and
/// names the file by the title with `.mp4`.
pub proof fn law_mp4_args()
    ensures
        download_args(FileType::Mp4).len() == 8,
        download_args(FileType::Mp4)[2] == ("--max-filesize"@, Some("50M"@)),
        download_args(FileType::Mp4)[3] == ("--output"@, Some("%(title)s.mp4"@)),
        download_args(FileType::Mp4)[7] == ("--format"@, Some("bv*[ext=mp4]+ba[ext=m4a]/b[ext=mp4]"@)),
        download_args(FileType::Mp4).last() == ("--format"@, Some("bv*[ext=mp4]+ba[ext=m4a]/b[ext=mp4]"@)),
{
}

/// A voice download extracts the audio as opus at 64 kbit/s.
pub proof fn law_voice_args()
    ensures
        download_args(FileType::Voice).len() == 8,
        download_args(FileType::Voice)[5] == ("--extract-audio"@, None::<Seq<char>>),
        download_args(FileType::Voice)[6] == ("--audio-format"@, Some("opus"@)),
        download_args(FileType::Voice)[7] == ("--audio-quality"@, Some("64K"@)),
{
}

/// A GIF download takes the best video stream alone, preferring mp4 with
/// h264, stops at 50 MB and names the file by the title with `.mp4`.
pub proof fn law_gif_args()
    ensures
        download_args(FileType::Gif).len() == 9,
        download_args(FileType::Gif)[2] == ("--max-filesize"@, Some("50M"@)),
        download_args(FileType::Gif)[3] == ("--output"@, Some("%(title)s.mp4"@)),
        download_args(FileType::Gif)[7] == ("--format-sort"@, Some("ext:mp4,codec:h264"@)),
        download_args(FileType::Gif)[8] == ("--format"@, Some("bv"@)),
{
}

/// Every download folder is `./downloads/` followed by the identifier.
pub proof fn law_download_folder_text(id: Seq<char>)
    ensures
        download_folder_text(id) == seq!['.', '/', 'd', 'o', 'w', 'n', 'l', 'o', 'a', 'd', 's', '/']
            + id,
{
    reveal_strlit("./downloads/");
    assert(downloads_root() =~= seq!['.', '/', 'd', 'o', 'w', 'n', 'l', 'o', 'a', 'd', 's', '/']);
}

/// The extension each kind's files are found by, whatever the folder:
/// `mp3`, `mp4`, `opus`, and `mp4` for a GIF.
pub open spec fn found_extension_chars(ft: FileType) -> Seq<char> {
    match ft {
        FileType::Mp3 => seq!['m', 'p', '3'],
        FileType::Mp4 => seq!['m', 'p', '4'],
        FileType::Voice => seq!['o', 'p', 'u', 's'],
        FileType::Gif => seq!['m', 'p', '4'],
    }
}

/// The pattern of every folder and kind is `{folder}/*{ext}`, and yt-dlp is
/// told to save that kind's files under that very extension, so the pattern
/// finds what the download wrote.
pub proof fn law_pattern_finds_saved_files(folder: Seq<char>, ft: FileType)
    ensures
        file_pattern_text(folder, ft) == folder + seq!['/', '*'] + found_extension_chars(ft),
        exists|ext: Seq<char>|
            file_pattern_text(folder, ft) == folder + seq!['/', '*'] + ext && saves_as(
                download_args(ft),
                ext,
            ),
{
    reveal_strlit("/*");
    law_file_type_names();
    reveal_strlit("mp4");
    assert(found_extension(ft) =~= found_extension_chars(ft));
    assert("/*"@ =~= seq!['/', '*']);
    law_saved_files_are_found(ft);
    assert(file_pattern_text(folder, ft) == folder + seq!['/', '*'] + found_extension(ft));
}

/// A file name's stamp is made character by character: it is empty for an
/// empty text and the stamp of a joined text is the join of the stamps.
pub proof fn law_file_stamp_joins(a: Seq<char>, b: Seq<char>)
    ensures
        file_stamp(Seq::<char>::empty()) == Seq::<char>::empty(),
        file_stamp(a + b) == file_stamp(a) + file_stamp(b),
    decreases b.len(),
{
    if b.len() > 0 {
        law_file_stamp_joins(a, b.drop_last());
        assert((a + b).drop_last() =~= a + b.drop_last());
        assert((a + b).last() == b.last());
        assert(file_stamp(a + b) =~= file_stamp(a) + file_stamp(b));
    } else {
        assert(a + b =~= a);
        assert(file_stamp(b) =~= Seq::<char>::empty());
    }
}

/// In a stamp, `:` becomes `-`, `T` becomes `_`, `Z` goes, and every other
/// character stays as it is.
pub proof fn law_file_stamp_chars(c: char)
    ensures
        file_stamp(seq![':']) == seq!['-'],
        file_stamp(seq!['T']) == seq!['_'],
        file_stamp(seq!['Z']) == Seq::<char>::empty(),
        c != ':' && c != 'T' && c != 'Z' ==> file_stamp(seq![c]) == seq![c],
{
    assert(file_stamp(Seq::<char>::empty()) =~= Seq::<char>::empty());
    assert(seq![':'].drop_last() =~= Seq::<char>::empty());
    assert(seq![':'].last() == ':');
    assert(seq!['T'].last() == 'T');
    assert(seq!['Z'].last() == 'Z');
    assert(seq![c].last() == c);
    assert(seq!['T'].drop_last() =~= Seq::<char>::empty());
    assert(seq!['Z'].drop_last() =~= Seq::<char>::empty());
    assert(seq![c].drop_last() =~= Seq::<char>::empty());
    assert(file_stamp(seq![':']) =~= seq!['-']);
    assert(file_stamp(seq!['T']) =~= seq!['_']);
    assert(file_stamp(seq!['Z']) =~= Seq::<char>::empty());
    assert(c != ':' && c != 'T' && c != 'Z' ==> file_stamp(seq![c]) =~= seq![c]);
}

/// Whatever the folder and time, a renamed opus file is named
/// `{folder}/audio_{stamp}.ogg`: it stays in the folder and ends in `.ogg`,
/// the extension Telegram needs to show a voice message's wave; the stamp
/// is that of humantime's text of the rename time.
pub proof fn law_audio_name_is_ogg(folder: Seq<char>, text: Seq<char>, secs: u64)
    ensures
        audio_name_for(folder, text) == folder + seq!['/', 'a', 'u', 'd', 'i', 'o', '_']
            + file_stamp(text) + seq!['.', 'o', 'g', 'g'],
        audio_name_text(folder, secs) == audio_name_for(folder, rfc3339_seconds_text(secs)),
        audio_name_for(folder, text).subrange(
            audio_name_for(folder, text).len() - 4,
            audio_name_for(folder, text).len() as int,
        ) == seq!['.', 'o', 'g', 'g'],
        audio_name_for(folder, text).subrange(0, folder.len() as int + 1) == folder + seq!['/'],
{
    reveal_strlit("/audio_");
    reveal_strlit(".ogg");
    assert("/audio_"@ =~= seq!['/', 'a', 'u', 'd', 'i', 'o', '_']);
    assert(".ogg"@ =~= seq!['.', 'o', 'g', 'g']);
    let n = audio_name_for(folder, text);
    assert(n.subrange(n.len() - 4, n.len() as int) =~= seq!['.', 'o', 'g', 'g']);
    assert(n.subrange(0, folder.len() as int + 1) =~= folder + seq!['/']);
}

/// Only files below 50 000 000 bytes are sent; larger ones are skipped.
pub proof fn law_size_limit(r: EntryPlan, folder: Seq<char>, path: Seq<char>, size: u64, secs: u64)
    requires
        entry_plan_matches(r, folder, path, size, secs),
    ensures
        (r is Skip) == (size >= 50_000_000),
{
}

/// The plain form of an argument list keeps every argument, in order, as
/// its flag and value texts.
pub proof fn law_arg_texts(args: Seq<DownloadArg>, i: int)
    requires
        0 <= i < args.len(),
    ensures
        arg_texts(args).len() == args.len(),
        arg_texts(args)[i] == (args[i].flag@, opt_text(args[i].value)),
        opt_text(args[i].value) == match args[i].value {
            Some(v) => Some(v@),
            None => None::<Seq<char>>,
        },
{
}

/// A job is for a kind and link when it carries that kind, that link and
/// that kind's arguments.
pub proof fn law_job_for_fields(job: DownloadJob, ft: FileType, url: Seq<char>)
    ensures
        is_job_for(job, ft, url) == (job.filetype == ft && job.url@ == url && arg_texts(job.args@)
            == download_args(ft)),
{
}

/// The extension each kind's files are found by.
pub proof fn law_found_extension(ft: FileType)
    ensures
        found_extension(ft) == found_extension_chars(ft),
{
    law_file_type_names();
    reveal_strlit("mp4");
    assert(found_extension(ft) =~= found_extension_chars(ft));
}

/// The plain form of a download keeps its kind, every path in order, and
/// its folder.
pub proof fn law_downloads_view(d: Downloads, i: int)
    requires
        0 <= i < d.paths@.len(),
    ensures
        d@.0 == d.filetype,
        d@.1.len() == d.paths@.len(),
        d@.1[i] == d.paths@[i]@,
        d@.2 == d.folder@,
{
}

} // verus!
