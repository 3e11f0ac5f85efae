use gossip_settings::duration::secs_to_string;

fn read_back(text: &str) -> u64 {
    let words: Vec<&str> = text.split_whitespace().collect();
    assert_eq!(words.len() % 2, 0);
    let mut total: u64 = 0;
    for pair in words.chunks(2) {
        let n: u64 = pair[0].parse().unwrap();
        let unit: u64 = match pair[1] {
            "days" => 86400,
            "hours" => 3600,
            "minutes" => 60,
            "seconds" => 1,
            other => panic!("unexpected unit {}", other),
        };
        total += n * unit;
    }
    total
}

#[test]
fn zero_shows_only_seconds() {
    assert_eq!(secs_to_string(0), " 0 seconds");
}

#[test]
fn every_unit_once() {
    assert_eq!(secs_to_string(90061), " 1 days 1 hours 1 minutes 1 seconds");
}

#[test]
fn zero_units_are_left_out_but_seconds_stay() {
    assert_eq!(secs_to_string(3600), " 1 hours 0 seconds");
    assert_eq!(secs_to_string(86400), " 1 days 0 seconds");
    assert_eq!(secs_to_string(600), " 10 minutes 0 seconds");
    assert_eq!(secs_to_string(86405), " 1 days 5 seconds");
    assert_eq!(secs_to_string(59), " 59 seconds");
}

#[test]
fn slider_bounds_render() {
    assert_eq!(secs_to_string(2592000), " 30 days 0 seconds");
    assert_eq!(secs_to_string(43200), " 12 hours 0 seconds");
    assert_eq!(secs_to_string(3599), " 59 minutes 59 seconds");
}

#[test]
fn largest_input() {
    assert_eq!(secs_to_string(u64::MAX), " 213503982334601 days 7 hours 15 seconds");
    assert_eq!(read_back(&secs_to_string(u64::MAX)), u64::MAX);
}

#[test]
fn counts_read_back_to_input() {
    let samples: [u64; 12] = [0, 1, 59, 60, 61, 3599, 3600, 3661, 86399, 86400, 90061, 1234567890];
    for s in samples {
        assert_eq!(read_back(&secs_to_string(s)), s);
    }
    let mut s: u64 = 7;
    while s < 5_000_000 {
        assert_eq!(read_back(&secs_to_string(s)), s);
        s = s * 3 + 11;
    }
}
