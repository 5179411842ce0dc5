use murmure2::audio::encoder::{encode_to_wav, PcmSamples, MAX_AUDIO_SIZE_BYTES};
use murmure2::audio::recorder::{
    capped_duration_ms, concat_chunks, duration_limit_reached, first_channel, AudioRecorder, MAX_DURATION_MS,
};
use murmure2::error::AppError;
use murmure2::types::{AudioConfig, SampleFormat};
use std::time::{Duration, Instant};

fn f32_codes(pcm: &[f32]) -> PcmSamples {
    PcmSamples::F32(pcm.iter().map(|s| s.clamp(-1.0, 1.0).to_bits()).collect())
}

fn i16_codes(pcm: &[f32]) -> PcmSamples {
    PcmSamples::I16(
        pcm.iter()
            .map(|s| (s.clamp(-1.0, 1.0) * i16::MAX as f32) as i16)
            .collect(),
    )
}

fn sine(n: usize) -> Vec<f32> {
    let mut pcm = Vec::new();
    for i in 0..n {
        let t = i as f32 / 16000.0;
        pcm.push((t * 440.0 * 2.0 * std::f32::consts::PI).sin());
    }
    pcm
}

#[test]
fn test_encode_f32_mono() {
    let config = AudioConfig {
        sample_rate: 16000,
        channels: 1,
        sample_format: SampleFormat::F32,
    };
    let pcm = sine(16000);
    let wav_data = encode_to_wav(&f32_codes(&pcm), &config).unwrap();
    assert!(!wav_data.is_empty());
    assert!(wav_data.len() <= MAX_AUDIO_SIZE_BYTES);
    assert_eq!(&wav_data[0..4], b"RIFF");
    assert_eq!(&wav_data[8..12], b"WAVE");
}

#[test]
fn test_encode_i16_mono() {
    let config = AudioConfig {
        sample_rate: 16000,
        channels: 1,
        sample_format: SampleFormat::I16,
    };
    let pcm = sine(16000);
    let wav_data = encode_to_wav(&i16_codes(&pcm), &config).unwrap();
    assert!(!wav_data.is_empty());
    assert!(wav_data.len() <= MAX_AUDIO_SIZE_BYTES);
    assert_eq!(&wav_data[0..4], b"RIFF");
    assert_eq!(&wav_data[8..12], b"WAVE");
}

#[test]
fn test_encode_stereo() {
    let config = AudioConfig {
        sample_rate: 16000,
        channels: 2,
        sample_format: SampleFormat::F32,
    };
    let mut pcm = Vec::new();
    for s in sine(16000) {
        pcm.push(s);
        pcm.push(s);
    }
    let wav_data = encode_to_wav(&f32_codes(&pcm), &config).unwrap();
    assert!(!wav_data.is_empty());
    assert!(wav_data.len() <= MAX_AUDIO_SIZE_BYTES);
}

#[test]
fn test_size_limit_exceeded() {
    let config = AudioConfig {
        sample_rate: 16000,
        channels: 1,
        sample_format: SampleFormat::F32,
    };
    let huge_pcm = vec![0.5f32; 16000 * 420];
    let result = encode_to_wav(&f32_codes(&huge_pcm), &config);
    assert!(result.is_err());
    if let Err(AppError::AudioError(msg)) = result {
        assert!(msg.contains("exceeds Groq API limit"));
    } else {
        panic!("Expected AudioError");
    }
}

#[test]
fn encode_exact_bytes_i16() {
    let config = AudioConfig {
        sample_rate: 16000,
        channels: 1,
        sample_format: SampleFormat::I16,
    };
    let wav = encode_to_wav(&PcmSamples::I16(vec![1, -2, 0x1234]), &config).unwrap();
    let expected: Vec<u8> = vec![
        b'R', b'I', b'F', b'F', 42, 0, 0, 0, b'W', b'A', b'V', b'E', b'f', b'm', b't', b' ', 16,
        0, 0, 0, 1, 0, 1, 0, 0x80, 0x3e, 0, 0, 0x00, 0x7d, 0, 0, 2, 0, 16, 0, b'd', b'a', b't',
        b'a', 6, 0, 0, 0, 1, 0, 0xfe, 0xff, 0x34, 0x12,
    ];
    assert_eq!(wav, expected);
}

#[test]
fn encode_exact_bytes_f32_stereo() {
    let config = AudioConfig {
        sample_rate: 44100,
        channels: 2,
        sample_format: SampleFormat::F32,
    };
    let wav = encode_to_wav(&f32_codes(&[1.0, -0.5]), &config).unwrap();
    assert_eq!(wav.len(), 44 + 8);
    assert_eq!(&wav[20..22], &[3, 0]);
    assert_eq!(&wav[22..24], &[2, 0]);
    assert_eq!(&wav[24..28], &44100u32.to_le_bytes());
    assert_eq!(&wav[28..32], &(44100u32 * 8).to_le_bytes());
    assert_eq!(&wav[32..34], &[8, 0]);
    assert_eq!(&wav[34..36], &[32, 0]);
    assert_eq!(&wav[40..44], &8u32.to_le_bytes());
    assert_eq!(&wav[44..48], &1.0f32.to_le_bytes());
    assert_eq!(&wav[48..52], &(-0.5f32).to_le_bytes());
}

#[test]
fn encode_clamps_through_codes() {
    let config = AudioConfig {
        sample_rate: 8000,
        channels: 1,
        sample_format: SampleFormat::F32,
    };
    let wav = encode_to_wav(&f32_codes(&[3.0, -7.0]), &config).unwrap();
    assert_eq!(&wav[44..48], &1.0f32.to_le_bytes());
    assert_eq!(&wav[48..52], &(-1.0f32).to_le_bytes());
}

#[test]
fn encode_empty_is_header_only() {
    let config = AudioConfig {
        sample_rate: 16000,
        channels: 1,
        sample_format: SampleFormat::F32,
    };
    let wav = encode_to_wav(&PcmSamples::F32(vec![]), &config).unwrap();
    assert_eq!(wav.len(), 44);
    assert_eq!(&wav[4..8], &36u32.to_le_bytes());
    assert_eq!(&wav[40..44], &0u32.to_le_bytes());
}

#[test]
fn encode_limit_boundary() {
    let config = AudioConfig {
        sample_rate: 16000,
        channels: 1,
        sample_format: SampleFormat::I16,
    };
    let fits = (MAX_AUDIO_SIZE_BYTES - 44) / 2;
    let wav = encode_to_wav(&PcmSamples::I16(vec![0; fits]), &config).unwrap();
    assert_eq!(wav.len(), MAX_AUDIO_SIZE_BYTES);
    let over = encode_to_wav(&PcmSamples::I16(vec![0; fits + 1]), &config);
    match over {
        Err(AppError::AudioError(msg)) => assert_eq!(
            msg,
            "Encoded audio size 26214402 bytes exceeds Groq API limit of 26214400 bytes"
        ),
        _ => panic!("Expected AudioError"),
    }
}

#[test]
fn test_record_and_encode_function_signature() {
    let config = AudioConfig {
        sample_rate: 16000,
        channels: 1,
        sample_format: SampleFormat::F32,
    };
    let _recorder = AudioRecorder::<(), f32>::new(config.clone()).unwrap();
}

#[test]
fn test_audio_recorder_creation() {
    let config = AudioConfig {
        sample_rate: 16000,
        channels: 1,
        sample_format: SampleFormat::F32,
    };
    let recorder = AudioRecorder::<(), f32>::new(config);
    assert!(recorder.is_ok());
}

#[test]
fn test_valid_configurations() {
    let config = AudioConfig {
        sample_rate: 16000,
        channels: 1,
        sample_format: SampleFormat::F32,
    };
    let recorder = AudioRecorder::<(), f32>::new(config);
    assert!(recorder.is_ok());

    let config = AudioConfig {
        sample_rate: 44100,
        channels: 2,
        sample_format: SampleFormat::I16,
    };
    let recorder = AudioRecorder::<(), f32>::new(config);
    assert!(recorder.is_ok());
}

#[test]
fn test_supported_formats() {
    let config_f32 = AudioConfig {
        sample_rate: 16000,
        channels: 1,
        sample_format: SampleFormat::F32,
    };
    let config_i16 = AudioConfig {
        sample_rate: 16000,
        channels: 1,
        sample_format: SampleFormat::I16,
    };
    assert!(AudioRecorder::<(), f32>::new(config_f32).is_ok());
    assert!(AudioRecorder::<(), f32>::new(config_i16).is_ok());
}

#[test]
fn test_duration_tracking() {
    let config = AudioConfig {
        sample_rate: 16000,
        channels: 1,
        sample_format: SampleFormat::F32,
    };
    let mut recorder = AudioRecorder::<(), f32>::new(config).unwrap();
    assert_eq!(recorder.get_duration_ms(), 0);

    recorder.start_time = Some(Instant::now() - Duration::from_millis(1500));
    let duration = recorder.get_duration_ms();
    assert!(duration >= 1400 && duration <= 1600);
}

#[test]
fn test_max_duration_enforcement() {
    let config = AudioConfig {
        sample_rate: 16000,
        channels: 1,
        sample_format: SampleFormat::F32,
    };
    let mut recorder = AudioRecorder::<(), f32>::new(config).unwrap();
    recorder.start_time = Some(Instant::now() - Duration::from_millis(660_000));
    assert_eq!(recorder.get_duration_ms(), 600_000);
    assert!(recorder.is_max_duration_reached());
}

#[test]
fn test_sample_conversion_f32() {
    let (sender, receiver) = crossbeam_channel::bounded::<Vec<f32>>(10);
    let test_data = vec![0.5f32, -0.3, 0.8];
    let samples: Vec<f32> = first_channel(&test_data, 1);
    let _ = sender.send(samples);

    let received = receiver.recv_timeout(Duration::from_millis(100)).unwrap();
    assert_eq!(received, test_data);
}

#[test]
fn test_sample_conversion_i16() {
    let (sender, receiver) = crossbeam_channel::bounded::<Vec<f32>>(10);
    let test_data = vec![16384i16, -9830, 24576];
    let samples: Vec<f32> = first_channel(&test_data, 1)
        .iter()
        .map(|&sample| sample as f32 / i16::MAX as f32)
        .collect();
    let _ = sender.send(samples);

    let received = receiver.recv_timeout(Duration::from_millis(100)).unwrap();
    assert!((received[0] - 0.5).abs() < 0.01);
    assert!((received[1] + 0.3).abs() < 0.01);
    assert!(received[2] > 0.7 && received[2] < 0.9);
}

#[test]
fn first_channel_keeps_first_of_each_frame() {
    assert_eq!(first_channel(&[1i16, 2, 3, 4, 5, 6], 2), vec![1, 3, 5]);
    assert_eq!(first_channel(&[1i16, 2, 3, 4, 5, 6, 7], 3), vec![1, 4, 7]);
    assert_eq!(first_channel(&[1i16, 2, 3], 1), vec![1, 2, 3]);
    assert_eq!(first_channel(&[1i16, 2, 3], 0), vec![1, 2, 3]);
    assert_eq!(first_channel::<i16>(&[], 2), Vec::<i16>::new());
}

#[test]
fn duration_is_capped_at_the_maximum() {
    assert_eq!(capped_duration_ms(1500, MAX_DURATION_MS), 1500);
    assert_eq!(capped_duration_ms(660_000, MAX_DURATION_MS), 600_000);
    assert_eq!(capped_duration_ms(600_000, MAX_DURATION_MS), 600_000);
    assert!(!duration_limit_reached(599_999, MAX_DURATION_MS));
    assert!(duration_limit_reached(600_000, MAX_DURATION_MS));
}

#[test]
fn stop_without_start_fails() {
    let config = AudioConfig {
        sample_rate: 16000,
        channels: 1,
        sample_format: SampleFormat::F32,
    };
    let mut recorder = AudioRecorder::<(), f32>::new(config).unwrap();
    assert!(!recorder.is_max_duration_reached());
    match recorder.stop_recording() {
        Err(AppError::AudioError(m)) => assert_eq!(m, "Recording not started or already stopped"),
        _ => panic!("Expected AudioError"),
    }
}

#[test]
fn stop_collects_chunks_in_order_then_refuses_a_second_stop() {
    let config = AudioConfig {
        sample_rate: 16000,
        channels: 1,
        sample_format: SampleFormat::F32,
    };
    let mut recorder = AudioRecorder::<(), f32>::new(config).unwrap();
    let sender = recorder.sender().unwrap();
    recorder.start_recording(());
    sender.send(vec![0.1, 0.2]).unwrap();
    sender.send(vec![0.3]).unwrap();
    assert_eq!(recorder.stop_recording().unwrap(), vec![0.1, 0.2, 0.3]);
    recorder.start_recording(());
    match recorder.stop_recording() {
        Err(AppError::AudioError(m)) => assert_eq!(m, "Samples receiver already consumed"),
        _ => panic!("Expected AudioError"),
    }
    match recorder.stop_recording() {
        Err(AppError::AudioError(m)) => assert_eq!(m, "Recording not started or already stopped"),
        _ => panic!("Expected AudioError"),
    }
}

#[test]
fn chunks_are_joined_in_order() {
    assert_eq!(concat_chunks(vec![vec![1, 2], vec![], vec![3], vec![4, 5]]), vec![1, 2, 3, 4, 5]);
    assert_eq!(concat_chunks::<u8>(vec![]), Vec::<u8>::new());
}

#[test]
fn a_mono_buffer_comes_back_unchanged() {
    let config = AudioConfig {
        sample_rate: 16000,
        channels: 1,
        sample_format: SampleFormat::F32,
    };
    let mut recorder = AudioRecorder::<(), f32>::new(config).unwrap();
    let sender = recorder.sender().unwrap();
    recorder.start_recording(());
    sender.send(first_channel(&[0.5f32, -0.3, 0.8], 1)).unwrap();
    assert_eq!(recorder.stop_recording().unwrap(), vec![0.5f32, -0.3, 0.8]);
}
