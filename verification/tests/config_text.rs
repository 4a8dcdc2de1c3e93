use nbody::config::{next_token, parse_number, split_lines, whitespace, Config, Parsed};

fn chars(text: &str) -> Vec<char> {
    text.chars().collect()
}

fn read(text: &str) -> (u16, u32, u32, Vec<usize>) {
    let Parsed { config, rejected } = Config::from_text(text);
    (config.msaa_samples, config.width, config.height, rejected)
}

fn expected(text: &str) -> (u16, u32, u32, Vec<usize>) {
    let mut cfg = Config::new();
    let mut rejected = Vec::new();
    for (number, line) in text.lines().enumerate() {
        let first_char = line.chars().nth(0);
        if first_char == None || first_char == Some('#') {
            continue;
        }
        let mut tokens = line.split_whitespace();
        match tokens.next() {
            Some("samples") => {
                if let Some(samples_str) = tokens.next() {
                    if let Ok(samples) = samples_str.parse() {
                        cfg.msaa_samples = samples;
                    } else {
                        rejected.push(number);
                    }
                } else {
                    rejected.push(number);
                }
            }
            Some("resolution") => {
                if let Some(width_str) = tokens.next() {
                    if let Ok(width) = width_str.parse() {
                        cfg.width = width;
                    } else {
                        rejected.push(number);
                    }
                } else {
                    rejected.push(number);
                }
                if let Some(height_str) = tokens.next() {
                    if let Ok(height) = height_str.parse() {
                        cfg.height = height;
                    } else {
                        rejected.push(number);
                    }
                } else {
                    rejected.push(number);
                }
            }
            _ => rejected.push(number),
        }
    }
    (cfg.msaa_samples, cfg.width, cfg.height, rejected)
}

fn texts() -> Vec<&'static str> {
    vec![
        "",
        "\n",
        "\n\n",
        "\r\n",
        "\r",
        "samples 4",
        "samples 4\n",
        "samples 4\r\n",
        "samples 4\r",
        "samples 4\r\r\n",
        "samples\t8\nresolution 1280 720\n",
        "# a comment\nsamples 2\n\nresolution 1024 768",
        "#samples 16",
        " # not a comment",
        "   ",
        "\t",
        "  samples 4",
        "samples",
        "samples x",
        "samples 65535",
        "samples 65536",
        "samples 99999999999999999999999999",
        "samples +7",
        "samples -7",
        "samples +",
        "samples ++7",
        "samples 007",
        "samples 7 trailing words",
        "samples 7x",
        "samples ٣",
        "samples 4.0",
        "Samples 4",
        "samples4",
        "sample 4",
        "resolution",
        "resolution 10",
        "resolution x 20",
        "resolution 10 y",
        "resolution x y",
        "resolution 10 20 30",
        "resolution 4294967295 4294967295",
        "resolution 4294967296 1",
        "resolution 1 4294967296",
        "resolution 0 0",
        "resolution +640 +480",
        "resolution\u{a0}640\u{3000}480",
        "resolution\u{2003}640\u{2028}480",
        "resolution\u{200b}640 480",
        "resolution 640\u{85}480",
        "resolution 640\u{1680}480\u{202f}\u{205f}",
        "samples 1\nsamples 2\nsamples three\nsamples 4",
        "resolution 1 2\nresolution 3\nresolution x 4",
        "unknown\nsamples 3\nalso unknown 1 2\n#\n\nresolution 5 6\n",
        "samples 4\rresolution 1 2",
        "samples 4\n\rresolution 1 2",
        "samples 4\u{b}5",
        "samples 4\u{c}resolution 1 2",
        "ſamples 4",
        "samples 4\n# \u{1f600}\nresolution \u{1f600} 2",
    ]
}

#[test]
fn the_default_configuration_is_read_from_an_empty_text() {
    assert_eq!(read(""), (0, 600, 800, Vec::new()));
}

#[test]
fn a_configuration_text_sets_what_it_names() {
    assert_eq!(read("samples 4\nresolution 1280 720\n"), (4, 1280, 720, Vec::new()));
    assert_eq!(read("resolution 1280 720"), (0, 1280, 720, Vec::new()));
    assert_eq!(read("samples 8"), (8, 600, 800, Vec::new()));
    assert_eq!(read("samples 8\nsamples 2"), (2, 600, 800, Vec::new()));
}

#[test]
fn comments_and_empty_lines_are_passed_over() {
    assert_eq!(read("# samples 4\n\n\r\nsamples 2"), (2, 600, 800, Vec::new()));
}

#[test]
fn lines_that_cannot_be_read_are_rejected() {
    assert_eq!(read("bogus"), (0, 600, 800, vec![0]));
    assert_eq!(read("samples"), (0, 600, 800, vec![0]));
    assert_eq!(read("samples many"), (0, 600, 800, vec![0]));
    assert_eq!(read("samples 65536"), (0, 600, 800, vec![0]));
    assert_eq!(read("   "), (0, 600, 800, vec![0]));
    assert_eq!(read("ok\nsamples 1\n\nnope"), (1, 600, 800, vec![0, 3]));
}

#[test]
fn a_resolution_line_can_be_rejected_twice() {
    assert_eq!(read("resolution"), (0, 600, 800, vec![0, 0]));
    assert_eq!(read("resolution 10"), (0, 10, 800, vec![0]));
    assert_eq!(read("resolution x 20"), (0, 600, 20, vec![0]));
    assert_eq!(read("resolution x y"), (0, 600, 800, vec![0, 0]));
    assert_eq!(read("#\nresolution 4294967296 7"), (0, 600, 7, vec![1]));
}

#[test]
fn reading_agrees_with_the_standard_library() {
    for text in texts() {
        assert_eq!(read(text), expected(text), "{:?}", text);
    }
}

#[test]
fn lines_are_split_as_the_standard_library_splits_them() {
    for text in texts() {
        let ours: Vec<String> =
            split_lines(&chars(text)).iter().map(|line| line.iter().collect()).collect();
        let theirs: Vec<String> = text.lines().map(|line| line.to_string()).collect();
        assert_eq!(ours, theirs, "{:?}", text);
    }
}

#[test]
fn tokens_are_split_as_the_standard_library_splits_them() {
    for text in texts() {
        for line in text.lines() {
            let line_chars = chars(line);
            let mut ours: Vec<String> = Vec::new();
            let mut from = 0;
            while let Some((word, end)) = next_token(&line_chars, from) {
                ours.push(word.iter().collect());
                from = end;
            }
            let theirs: Vec<String> = line.split_whitespace().map(|w| w.to_string()).collect();
            assert_eq!(ours, theirs, "{:?}", line);
        }
    }
}

#[test]
fn numbers_are_read_as_the_standard_library_reads_them() {
    let words = [
        "", "0", "7", "+7", "-7", "+", "-", "++7", "007", "65535", "65536", "4294967295",
        "4294967296", "99999999999999999999", "7x", "x7", " 7", "7 ", "٣", "1_000", "0x10", "+0",
        "00000000000000000000000000000001",
    ];
    for word in words.iter() {
        assert_eq!(parse_number(&chars(word), u32::MAX), word.parse::<u32>().ok(), "{:?}", word);
        assert_eq!(
            parse_number(&chars(word), 0xFFFF),
            word.parse::<u16>().ok().map(|n| n as u32),
            "{:?}",
            word
        );
    }
}

#[test]
fn whitespace_is_what_the_standard_library_calls_whitespace() {
    for code in 0..=0x10FFFFu32 {
        if let Some(c) = char::from_u32(code) {
            assert_eq!(whitespace(c), c.is_whitespace(), "U+{:04X}", code);
        }
    }
}

#[test]
fn lines_can_be_read_one_by_one() {
    let mut config = Config::new();
    assert_eq!(config.read_line(&chars("samples 4")), 0);
    assert_eq!(config.read_line(&chars("resolution 1 y")), 1);
    assert_eq!(config.read_line(&chars("resolution")), 2);
    assert_eq!(config.read_line(&chars("# resolution 3 3")), 0);
    assert_eq!(config.read_line(&chars("")), 0);
    assert_eq!(config.read_line(&chars("huh")), 1);
    assert_eq!((config.msaa_samples, config.width, config.height), (4, 1, 800));
    let lines = vec![chars("samples 9"), chars("x"), chars("resolution 2")];
    let parsed = Config::from_lines(&lines);
    assert_eq!(parsed.config, Config { msaa_samples: 9, width: 2, height: 800 });
    assert_eq!(parsed.rejected, vec![1, 2]);
}
