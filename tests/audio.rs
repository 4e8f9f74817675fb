use soundboard::audio::RemoveAudioFile;
use soundboard::audio::is_mp3_content_type;
use soundboard::audio::{AudioError, AudioFile, AudioFileRejection, AudioFileValidator, AudioTrackInfo};

#[test]
fn audio_file_test() {
    let f = AudioFile::new("/tmp/once-Upon a_time.mp3".to_string());
    assert_eq!("Once Upon A Time", f.audio_title());
}

#[test]
fn file_stem_rules() {
    assert_eq!(AudioFile::new("/a/b/c.tar.gz".to_string()).file_stem(), "c.tar");
    assert_eq!(AudioFile::new("/a/.hidden".to_string()).file_stem(), ".hidden");
    assert_eq!(AudioFile::new("plain".to_string()).file_stem(), "plain");
    assert_eq!(AudioFile::new("/x/LOUD_noise.mp3".to_string()).audio_title(), "Loud Noise");
}

#[test]
fn validator_rules() {
    let v = AudioFileValidator::new();
    assert_eq!(v.max_duration_ms, 7000);
    assert!(v.reject_uuid_files);
    let short = AudioTrackInfo { duration_ms: 6999 };
    let long = AudioTrackInfo { duration_ms: 7001 };
    let named = AudioFile::new("/tmp/hello.mp3".to_string());
    let stored = AudioFile::new("/tmp/67e55044-10b1-426f-9247-bb680e5fe0c8.mp3".to_string());
    assert_eq!(v.validate(&named, short), Ok(()));
    assert_eq!(
        v.validate(&named, long),
        Err(AudioFileRejection::TooLong { duration_ms: 7001, max_duration_ms: 7000 })
    );
    assert_eq!(v.validate(&stored, short), Err(AudioFileRejection::UuidFileName));
    let lenient = v.reject_uuid_files(false).max_audio_duration(10_000);
    assert_eq!(lenient.validate(&stored, long), Ok(()));
    assert_eq!(AudioError::NotInVoiceChannel.message(), "Bot not in voice channel.");
}

#[test]
fn removing_a_file_takes_the_first_match() {
    let a = AudioFile::new("/a.mp3".to_string());
    let b = AudioFile::new("/b.mp3".to_string());
    let mut files = vec![a.clone(), b.clone(), a.clone()];
    files.remove_audio_file(&a);
    assert_eq!(files, vec![b.clone(), a.clone()]);
    files.remove_audio_file(&AudioFile::new("/c.mp3".to_string()));
    assert_eq!(files, vec![b, a]);
}

#[test]
fn mp3_content_types() {
    assert!(is_mp3_content_type("audio/mpeg"));
    assert!(is_mp3_content_type("audio/mpeg3"));
    assert!(is_mp3_content_type("x-mpeg-3"));
    assert!(!is_mp3_content_type("audio/ogg"));
    assert!(!is_mp3_content_type(""));
}
