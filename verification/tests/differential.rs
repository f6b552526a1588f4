use ai_transcribe_local::devices::{
    is_loopback_device_name, parse_macos_recording_devices, parse_windows_recording_devices,
};
use ai_transcribe_local::telemetry::{parse_telemetry_line, TelemetryEvent};

struct Rng(u64);

impl Rng {
    fn next(&mut self, bound: usize) -> usize {
        self.0 = self.0.wrapping_mul(6_364_136_223_846_793_005).wrapping_add(1_442_695_040_888_963_407);
        ((self.0 >> 33) as usize) % bound
    }

    fn text(&mut self, tokens: &[&str], max_tokens: usize) -> String {
        let n = self.next(max_tokens + 1);
        let mut out = String::new();
        for _ in 0..n {
            out.push_str(tokens[self.next(tokens.len())]);
        }
        out
    }
}

fn plain_loopback(name: &str) -> bool {
    let lower = name.to_lowercase();
    ["blackhole", "loopback", "soundflower", "vb-cable", "stereo mix", "monitor of"]
        .iter()
        .any(|marker| lower.contains(marker))
}

fn plain_macos(joined_output: &str) -> Vec<(String, String, String, bool)> {
    let mut devices = Vec::new();
    let mut in_audio_section = false;
    for line in joined_output.lines() {
        let trimmed = line.trim();
        if trimmed.contains("AVFoundation audio devices") {
            in_audio_section = true;
            continue;
        }
        if trimmed.contains("AVFoundation video devices") {
            in_audio_section = false;
            continue;
        }
        if !in_audio_section {
            continue;
        }
        let Some(marker) = trimmed.rfind("] [") else {
            continue;
        };
        let rest = &trimmed[(marker + 3)..];
        let Some(end_index_marker) = rest.find("] ") else {
            continue;
        };
        let index = rest[..end_index_marker].trim();
        let name = rest[(end_index_marker + 2)..].trim();
        if index.is_empty() || name.is_empty() {
            continue;
        }
        devices.push((
            name.to_string(),
            "avfoundation".to_string(),
            format!(":{index}"),
            plain_loopback(name),
        ));
    }
    devices
}

fn plain_windows(joined_output: &str) -> Vec<(String, String, String, bool)> {
    let mut devices: Vec<(String, String, String, bool)> = Vec::new();
    let mut in_audio_section = false;
    for line in joined_output.lines() {
        let trimmed = line.trim();
        if trimmed.contains("DirectShow audio devices") {
            in_audio_section = true;
            continue;
        }
        if trimmed.contains("DirectShow video devices") {
            in_audio_section = false;
            continue;
        }
        if !in_audio_section || trimmed.contains("Alternative name") {
            continue;
        }
        let Some(first_quote) = trimmed.find('"') else {
            continue;
        };
        let remainder = &trimmed[(first_quote + 1)..];
        let Some(second_quote) = remainder.find('"') else {
            continue;
        };
        let name = remainder[..second_quote].trim();
        if name.is_empty() {
            continue;
        }
        if devices.iter().any(|item| item.0.eq_ignore_ascii_case(name)) {
            continue;
        }
        devices.push((
            name.to_string(),
            "dshow".to_string(),
            format!("audio={name}"),
            plain_loopback(name),
        ));
    }
    devices
}

#[derive(Debug, PartialEq)]
enum Plain {
    Error(String),
    Total(u64),
    Progress(u64),
    Level(String),
    Silence,
    Decibels(String),
    Ignored,
}

fn plain_event(line: &str) -> Plain {
    if let Some(value) = line.strip_prefix("sck_error=") {
        return Plain::Error(value.trim().to_string());
    }
    if let Some(value) = line.strip_prefix("total_size=") {
        return match value.trim().parse::<u64>() {
            Ok(bytes) => Plain::Total(bytes),
            Err(_) => Plain::Ignored,
        };
    }
    if let Some(value) = line.strip_prefix("out_time_us=") {
        return match value.trim().parse::<u64>() {
            Ok(micros) => Plain::Progress(micros),
            Err(_) => Plain::Ignored,
        };
    }
    if let Some(value) = line.strip_prefix("level=") {
        return Plain::Level(value.trim().to_string());
    }
    if let Some(pos) = line.find("lavfi.astats.Overall.RMS_level=") {
        let value = &line[(pos + "lavfi.astats.Overall.RMS_level=".len())..];
        let trimmed = value.trim();
        return if trimmed.eq_ignore_ascii_case("-inf") {
            Plain::Silence
        } else {
            Plain::Decibels(trimmed.to_string())
        };
    }
    Plain::Ignored
}

fn seen(event: TelemetryEvent) -> Plain {
    match event {
        TelemetryEvent::RecorderError(e) => Plain::Error(e),
        TelemetryEvent::TotalSize(n) => Plain::Total(n),
        TelemetryEvent::Progress(n) => Plain::Progress(n),
        TelemetryEvent::Level(t) => Plain::Level(t),
        TelemetryEvent::RmsSilence => Plain::Silence,
        TelemetryEvent::RmsDecibels(t) => Plain::Decibels(t),
        TelemetryEvent::Ignored => Plain::Ignored,
    }
}

fn listing(rng: &mut Rng, headings: [&str; 2], device: fn(&mut Rng, &[&str]) -> String, soup: &[&str]) -> String {
    let endings = ["\n", "\r\n", "\n", " \n"];
    let mut text = String::new();
    let lines = rng.next(12);
    for _ in 0..lines {
        match rng.next(10) {
            0 | 1 => text.push_str(headings[0]),
            2 => text.push_str(headings[1]),
            3 | 4 => text.push_str(&rng.text(soup, 8)),
            _ => text.push_str(&device(rng, soup)),
        }
        text.push_str(endings[rng.next(endings.len())]);
    }
    text.push_str(&rng.text(soup, 3));
    text
}

fn macos_line(rng: &mut Rng, soup: &[&str]) -> String {
    let indexes = ["0", "1", " 12 ", "", " ", "x"];
    let names = ["Mic", " BlackHole 2ch ", "Büro [USB] Mikrofon", "", "  ", "Monitor of] [3] x"];
    format!(
        "{}] [{}] {}{}",
        rng.text(soup, 3),
        indexes[rng.next(indexes.len())],
        names[rng.next(names.len())],
        rng.text(soup, 2)
    )
}

fn windows_line(rng: &mut Rng, soup: &[&str]) -> String {
    let names = ["Microphone", "microphone", " Stereo Mix (Realtek) ", "", "  ", "É", "é", "CABLE (VB-Cable)"];
    format!(
        "{}\"{}\"{}",
        rng.text(soup, 2),
        names[rng.next(names.len())],
        rng.text(soup, 2)
    )
}

#[test]
fn macos_parser_agrees_with_the_plain_reading() {
    let soup = [
        "] [", "] ", "[", "]", " ", "  ", "\t", "\r", "0", "Mic", "LOOPBACK",
        "AVFoundation indev @ 0x7f", ":", "\u{a0}",
    ];
    let mut rng = Rng(7);
    let mut found = 0;
    for _ in 0..3000 {
        let text = listing(
            &mut rng,
            ["x AVFoundation audio devices:", "AVFoundation video devices:"],
            macos_line,
            &soup,
        );
        let got: Vec<(String, String, String, bool)> = parse_macos_recording_devices(&text)
            .into_iter()
            .map(|d| (d.name, d.format, d.input, d.is_loopback))
            .collect();
        found += got.len();
        assert_eq!(got, plain_macos(&text), "{text:?}");
    }
    assert!(found > 1000, "{found}");
}

#[test]
fn windows_parser_agrees_with_the_plain_reading() {
    let soup = [
        "\"", " ", "  ", "\r", "(Realtek)", "Alternative name", "[dshow @ 01]", "@device_cm",
        "\u{2003}", "x",
    ];
    let mut rng = Rng(11);
    let mut found = 0;
    for _ in 0..3000 {
        let text = listing(
            &mut rng,
            ["[dshow] DirectShow audio devices", "[dshow] DirectShow video devices"],
            windows_line,
            &soup,
        );
        let got: Vec<(String, String, String, bool)> = parse_windows_recording_devices(&text)
            .into_iter()
            .map(|d| (d.name, d.format, d.input, d.is_loopback))
            .collect();
        found += got.len();
        assert_eq!(got, plain_windows(&text), "{text:?}");
    }
    assert!(found > 1000, "{found}");
}

#[test]
fn loopback_names_agree_with_the_plain_reading() {
    let tokens = [
        "black", "hole", "BLACK", "HOLE", "loop", "back", "Sound", "flower", "vb", "-", "cable",
        "Stereo", " ", "Mix", "monitor", "of", "İ", "ß", "Σ", "x",
    ];
    let mut rng = Rng(13);
    let mut positive = 0;
    for _ in 0..4000 {
        let name = rng.text(&tokens, 6);
        let got = is_loopback_device_name(&name);
        if got {
            positive += 1;
        }
        assert_eq!(got, plain_loopback(&name), "{name:?}");
    }
    assert!(positive > 50);
}

#[test]
fn telemetry_lines_agree_with_the_plain_reading() {
    let tokens = [
        "sck_error=", "total_size=", "out_time_us=", "level=", "lavfi.astats.Overall.RMS_level=",
        " ", "\t", "0", "1", "7", "42", "18446744073709551615", "18446744073709551616", "+", "-",
        "-inf", "-INF", "inf", ".", "e", "N/A", "progress=continue", "[Parsed_ametadata_1 @ 0x]",
        "\u{a0}", "é",
    ];
    let mut rng = Rng(17);
    let mut kinds = [0usize; 7];
    for round in 0..6000 {
        let mut line = String::new();
        if round % 3 != 0 {
            line.push_str(tokens[rng.next(5)]);
        }
        match round % 5 {
            0 => line.push_str(tokens[6 + rng.next(8)]),
            1 => line.push_str(tokens[15 + rng.next(3)]),
            _ => line.push_str(&rng.text(&tokens[5..], 4)),
        }
        let got = seen(parse_telemetry_line(&line));
        let index = match got {
            Plain::Error(_) => 0,
            Plain::Total(_) => 1,
            Plain::Progress(_) => 2,
            Plain::Level(_) => 3,
            Plain::Silence => 4,
            Plain::Decibels(_) => 5,
            Plain::Ignored => 6,
        };
        kinds[index] += 1;
        assert_eq!(got, plain_event(&line), "{line:?}");
    }
    for count in kinds {
        assert!(count > 20, "{kinds:?}");
    }
}
