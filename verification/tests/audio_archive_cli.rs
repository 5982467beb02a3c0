use lingyu::archive::extract_binary;
use lingyu::audio::encode_wav;
use lingyu::cli::parse_args;
use std::io::Write;

#[test]
fn wav_header_and_samples() {
    let wav = encode_wav(16000, &vec![1i16, -1, 0x1234]).unwrap();
    let mut expected: Vec<u8> = Vec::new();
    expected.extend_from_slice(b"RIFF");
    expected.extend_from_slice(&(36u32 + 6).to_le_bytes());
    expected.extend_from_slice(b"WAVEfmt ");
    expected.extend_from_slice(&16u32.to_le_bytes());
    expected.extend_from_slice(&1u16.to_le_bytes());
    expected.extend_from_slice(&1u16.to_le_bytes());
    expected.extend_from_slice(&16000u32.to_le_bytes());
    expected.extend_from_slice(&32000u32.to_le_bytes());
    expected.extend_from_slice(&2u16.to_le_bytes());
    expected.extend_from_slice(&16u16.to_le_bytes());
    expected.extend_from_slice(b"data");
    expected.extend_from_slice(&6u32.to_le_bytes());
    expected.extend_from_slice(&[0x01, 0x00, 0xFF, 0xFF, 0x34, 0x12]);
    assert_eq!(wav, expected);
    assert_eq!(wav.len(), 44 + 6);
}

#[test]
fn empty_recording_is_an_error() {
    assert_eq!(encode_wav(44100, &Vec::new()).unwrap_err(), "未录制到音频");
}

fn zip_of(entries: &[(&str, &[u8])]) -> Vec<u8> {
    let mut w = zip::ZipWriter::new(std::io::Cursor::new(Vec::new()));
    let opts = zip::write::SimpleFileOptions::default().compression_method(zip::CompressionMethod::Stored);
    for (name, data) in entries {
        w.start_file(*name, opts).unwrap();
        w.write_all(data).unwrap();
    }
    w.finish().unwrap().into_inner()
}

#[test]
fn binary_taken_from_archive() {
    let z = zip_of(&[
        ("README.txt", b"readme"),
        ("llama-funasr-sensevoice.exe.sha256", b"checksum"),
        ("bin/llama-funasr-sensevoice.exe", b"MZ-binary"),
    ]);
    assert_eq!(extract_binary(&z, "llama-funasr-sensevoice.exe").unwrap(), b"MZ-binary".to_vec());
}

#[test]
fn archive_without_binary() {
    let z = zip_of(&[("llama-funasr-sensevoice.exe.sha256", b"checksum")]);
    assert_eq!(extract_binary(&z, "llama-funasr-sensevoice.exe").unwrap_err(), "未找到 FunASR 二进制");
}

#[test]
fn unreadable_archive() {
    let e = extract_binary(b"not a zip", "x.exe").unwrap_err();
    assert!(e.starts_with("读取压缩包失败："));
    assert!(e.len() > "读取压缩包失败：".len());
}

#[test]
fn command_line() {
    let args: Vec<String> = vec!["lingyu.exe".into(), "--debug".into(), "--x".into(), "--debug".into()];
    let o = parse_args(&args);
    assert!(o.debug);
    assert!(!o.helper);
    assert_eq!(o.gtk_args, vec!["lingyu.exe".to_string(), "--x".to_string()]);
    let o = parse_args(&vec!["lingyu.exe".to_string(), "--helper".to_string()]);
    assert!(o.helper && !o.debug);
    assert_eq!(o.gtk_args, vec!["lingyu.exe".to_string(), "--helper".to_string()]);
}
