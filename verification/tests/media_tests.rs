use telepirate::boundary::RFC3339_LIMIT_SECS;
use telepirate::media::{
    audio_file_name, audio_name_from_rfc3339, download_folder, file_pattern, fits_upload_limit, gif, job_for, mp3, mp4,
    needs_timestamp, new_download_folder, ogg, plan_entry, DownloadArg, DownloadJob, Downloads, EntryPlan, FileType,
    UPLOAD_LIMIT_BYTES,
};

fn args_of(job: &DownloadJob) -> Vec<(String, Option<String>)> {
    job.args
        .iter()
        .map(|a: &DownloadArg| (a.flag.clone(), a.value.clone()))
        .collect()
}

fn expected(list: &[(&str, Option<&str>)]) -> Vec<(String, Option<String>)> {
    list.iter()
        .map(|(f, v)| (f.to_string(), v.map(|x| x.to_string())))
        .collect()
}

#[test]
fn file_type_names() {
    assert_eq!(FileType::Mp3.as_str(), "mp3");
    assert_eq!(FileType::Mp4.as_str(), "mp4");
    assert_eq!(FileType::Voice.as_str(), "opus");
    assert_eq!(FileType::Gif.as_str(), "gif");
}

#[test]
fn defaults() {
    assert_eq!(FileType::default(), FileType::Mp3);
    let d = Downloads::default();
    assert_eq!(d.filetype, FileType::Mp3);
    assert!(d.paths.is_empty());
    assert_eq!(d.folder, "");
    assert!(d.is_empty());
}

#[test]
fn mp3_arguments() {
    let job = mp3("https://example.com/a".to_string());
    assert_eq!(job.url, "https://example.com/a");
    assert_eq!(job.filetype, FileType::Mp3);
    assert_eq!(
        args_of(&job),
        expected(&[
            ("--concurrent-fragments", Some("100000")),
            ("--skip-playlist-after-errors", Some("5000")),
            ("--output", Some("%(title)s.mp3")),
            ("--windows-filenames", None),
            ("--no-write-info-json", None),
            ("--no-embed-metadata", None),
            ("--extract-audio", None),
            ("--audio-format", Some("mp3")),
            ("--audio-quality", Some("0")),
        ])
    );
}

#[test]
fn mp4_arguments() {
    let job = mp4("u".to_string());
    assert_eq!(job.filetype, FileType::Mp4);
    assert_eq!(
        args_of(&job),
        expected(&[
            ("--concurrent-fragments", Some("100000")),
            ("--skip-playlist-after-errors", Some("5000")),
            ("--max-filesize", Some("50M")),
            ("--output", Some("%(title)s.mp4")),
            ("--windows-filenames", None),
            ("--no-write-info-json", None),
            ("--no-embed-metadata", None),
            ("--format", Some("bv*[ext=mp4]+ba[ext=m4a]/b[ext=mp4]")),
        ])
    );
}

#[test]
fn ogg_arguments() {
    let job = ogg("u".to_string());
    assert_eq!(job.filetype, FileType::Voice);
    assert_eq!(
        args_of(&job),
        expected(&[
            ("--concurrent-fragments", Some("100000")),
            ("--skip-playlist-after-errors", Some("5000")),
            ("--windows-filenames", None),
            ("--no-write-info-json", None),
            ("--no-embed-metadata", None),
            ("--extract-audio", None),
            ("--audio-format", Some("opus")),
            ("--audio-quality", Some("64K")),
        ])
    );
}

#[test]
fn gif_arguments() {
    let job = gif("u".to_string());
    assert_eq!(job.filetype, FileType::Gif);
    assert_eq!(
        args_of(&job),
        expected(&[
            ("--concurrent-fragments", Some("100000")),
            ("--skip-playlist-after-errors", Some("5000")),
            ("--max-filesize", Some("50M")),
            ("--output", Some("%(title)s.mp4")),
            ("--windows-filenames", None),
            ("--no-write-info-json", None),
            ("--no-embed-metadata", None),
            ("--format-sort", Some("ext:mp4,codec:h264")),
            ("--format", Some("bv")),
        ])
    );
}

#[test]
fn job_for_each_kind() {
    assert_eq!(job_for(FileType::Mp3, "x".to_string()), mp3("x".to_string()));
    assert_eq!(job_for(FileType::Mp4, "x".to_string()), mp4("x".to_string()));
    assert_eq!(job_for(FileType::Voice, "x".to_string()), ogg("x".to_string()));
    assert_eq!(job_for(FileType::Gif, "x".to_string()), gif("x".to_string()));
}

#[test]
fn folders() {
    assert_eq!(download_folder("abc"), "./downloads/abc");
    let f = new_download_folder();
    assert!(f.starts_with("./downloads/"));
    let id: Vec<char> = f["./downloads/".len()..].chars().collect();
    assert_eq!(id.len(), 36);
    for (i, c) in id.iter().enumerate() {
        if i == 8 || i == 13 || i == 18 || i == 23 {
            assert_eq!(*c, '-');
        } else {
            assert!(c.is_ascii_hexdigit() && !c.is_ascii_uppercase());
        }
    }
    assert_eq!(id[14], '4');
    assert!(matches!(id[19], '8' | '9' | 'a' | 'b'));
    assert_ne!(new_download_folder(), f);
}

#[test]
fn patterns() {
    assert_eq!(file_pattern("./downloads/d", FileType::Mp3), "./downloads/d/*mp3");
    assert_eq!(file_pattern("./downloads/d", FileType::Mp4), "./downloads/d/*mp4");
    assert_eq!(file_pattern("./downloads/d", FileType::Voice), "./downloads/d/*opus");
    assert_eq!(file_pattern("./downloads/d", FileType::Gif), "./downloads/d/*mp4");
}

#[test]
fn upload_limit() {
    assert_eq!(UPLOAD_LIMIT_BYTES, 50_000_000);
    assert!(fits_upload_limit(0));
    assert!(fits_upload_limit(49_999_999));
    assert!(!fits_upload_limit(50_000_000));
    assert!(!fits_upload_limit(u64::MAX));
}

#[test]
fn audio_names() {
    assert_eq!(audio_file_name("./downloads/d", 0), "./downloads/d/audio_1970-01-01_00-00-00.ogg");
    assert_eq!(
        audio_file_name("./downloads/d", 1518568087),
        "./downloads/d/audio_2018-02-14_00-28-07.ogg"
    );
    assert_eq!(audio_file_name("f", 1700000000), "f/audio_2023-11-14_22-13-20.ogg");
    assert_eq!(
        audio_file_name("f", RFC3339_LIMIT_SECS - 1),
        "f/audio_9999-12-31_23-59-59.ogg"
    );
}

#[test]
fn entry_too_large_is_skipped() {
    assert_eq!(plan_entry("d", "d/a.opus", 50_000_000, 0), EntryPlan::Skip);
    assert_eq!(plan_entry("d", "d/a.mp3", 60_000_000, 0), EntryPlan::Skip);
    assert_eq!(EntryPlan::Skip.delivered_path(), None);
}

#[test]
fn entry_opus_is_renamed() {
    let plan = plan_entry("./downloads/d", "./downloads/d/Song.opus", 1000, 1518568087);
    assert_eq!(
        plan,
        EntryPlan::Rename {
            from: "./downloads/d/Song.opus".to_string(),
            to: "./downloads/d/audio_2018-02-14_00-28-07.ogg".to_string(),
        }
    );
    assert_eq!(
        plan.delivered_path(),
        Some("./downloads/d/audio_2018-02-14_00-28-07.ogg".to_string())
    );
}

#[test]
fn entry_other_is_kept() {
    let plan = plan_entry("./downloads/d", "./downloads/d/Clip.mp4", 49_999_999, 0);
    assert_eq!(plan, EntryPlan::Keep("./downloads/d/Clip.mp4".to_string()));
    assert_eq!(plan.delivered_path(), Some("./downloads/d/Clip.mp4".to_string()));
}

#[test]
fn entry_only_opus_paths_are_renamed() {
    // `.opus` elsewhere in the path does not make an opus file.
    assert_eq!(plan_entry("d", "d/a.opus.mp3", 1, 0), EntryPlan::Keep("d/a.opus.mp3".to_string()));
    assert_eq!(
        plan_entry("d", "d/a.opus.b.opus.part", 1, 0),
        EntryPlan::Keep("d/a.opus.b.opus.part".to_string())
    );
    assert_eq!(plan_entry("d", "d/x.opusfile", 1, 0), EntryPlan::Keep("d/x.opusfile".to_string()));
    assert_eq!(plan_entry("d", "d/x.opu", 1, 0), EntryPlan::Keep("d/x.opu".to_string()));
    // A line break in the name does not stop the rename.
    assert_eq!(
        plan_entry("d", "d/a\nb.opus", 1, 0),
        EntryPlan::Rename { from: "d/a\nb.opus".to_string(), to: "d/audio_1970-01-01_00-00-00.ogg".to_string() }
    );
    assert_eq!(
        plan_entry("d", "d/a.opus.b.opus", 1, 0),
        EntryPlan::Rename { from: "d/a.opus.b.opus".to_string(), to: "d/audio_1970-01-01_00-00-00.ogg".to_string() }
    );
}

#[test]
fn audio_name_from_given_time() {
    assert_eq!(
        audio_name_from_rfc3339("./downloads/d", "2018-02-14T00:28:07Z"),
        "./downloads/d/audio_2018-02-14_00-28-07.ogg"
    );
    assert_eq!(audio_name_from_rfc3339("f", ""), "f/audio_.ogg");
}

#[test]
fn entry_timestamp_needed_only_for_opus_files() {
    assert!(needs_timestamp("d/a.opus", 1));
    assert!(needs_timestamp("d/a\nb.opus", 1));
    assert!(!needs_timestamp("d/a.opus", 50_000_000));
    assert!(!needs_timestamp("d/a.mp3", 1));
    assert!(!needs_timestamp("d/a.opus.mp3", 1));
    // Past year 9999 only opus files would need the clock; others are planned.
    assert_eq!(
        plan_entry("d", "d/a.mp3", 1, u64::MAX),
        EntryPlan::Keep("d/a.mp3".to_string())
    );
    assert_eq!(plan_entry("d", "d/a.opus", 60_000_000, u64::MAX), EntryPlan::Skip);
}

#[test]
fn audio_names_at_distinct_instants_differ() {
    let a = audio_file_name("d", 1000);
    let b = audio_file_name("d", 1000 + 86400);
    let c = audio_file_name("d", 1001);
    assert_eq!(a, "d/audio_1970-01-01_00-16-40.ogg");
    assert_eq!(b, "d/audio_1970-01-02_00-16-40.ogg");
    assert_ne!(a, b);
    assert_ne!(a, c);
}

#[test]
fn downloads_collect_sent_files() {
    let mut d = Downloads::new(FileType::Voice, "./downloads/x".to_string());
    assert!(d.is_empty());
    d.record(&EntryPlan::Skip);
    assert!(d.is_empty());
    d.record(&EntryPlan::Keep("./downloads/x/a.opus.mp3".to_string()));
    d.record(&EntryPlan::Rename {
        from: "./downloads/x/b.opus".to_string(),
        to: "./downloads/x/audio_1970-01-01_00-00-00.ogg".to_string(),
    });
    assert_eq!(d.filetype, FileType::Voice);
    assert_eq!(d.folder, "./downloads/x");
    assert_eq!(
        d.paths,
        vec![
            "./downloads/x/a.opus.mp3".to_string(),
            "./downloads/x/audio_1970-01-01_00-00-00.ogg".to_string()
        ]
    );
    assert!(!d.is_empty());
    assert_eq!(d.folder_to_remove(), None);
    let e = Downloads::new(FileType::Mp3, "./downloads/y".to_string());
    assert_eq!(e.folder_to_remove(), Some("./downloads/y".to_string()));
}

#[test]
fn downloads_emptiness() {
    let d = Downloads { filetype: FileType::Gif, paths: vec!["p".to_string()], folder: "f".to_string() };
    assert!(!d.is_empty());
}
