use seed_trials::seed::{
    merge_user_defined_seeds, parse_seed_line, parse_seeds_file, SeedFileError, SeedIterator,
    SeedLineFault, MAX_SEED,
};

#[test]
fn test_seed_iterator() {
    let seeds = vec![1, 2, 3];
    let mut iter = SeedIterator::new(Some(seeds));
    assert_eq!(iter.next(), Some(3));
    assert_eq!(iter.next(), Some(2));
    assert_eq!(iter.next(), Some(1));
    assert_eq!(iter.next(), None);
}

#[test]
fn test_seed_iterator_empty() {
    let mut iter = SeedIterator::new(None).take(10);
    while let Some(i) = iter.next() {
        println!("{}", i);
    }
}

#[test]
fn random_supply_capped_at_ten_gives_ten_seeds() {
    let mut iter = SeedIterator::new(None).take(10);
    let mut drawn = 0;
    while let Some(seed) = iter.next() {
        assert!(seed <= MAX_SEED);
        drawn += 1;
    }
    assert_eq!(drawn, 10);
    assert_eq!(iter.next(), None);
}

#[test]
fn parse_seed_line_accepts_plain_numbers() {
    assert_eq!(parse_seed_line("0"), Ok(0));
    assert_eq!(parse_seed_line("7"), Ok(7));
    assert_eq!(parse_seed_line("+42"), Ok(42));
    assert_eq!(parse_seed_line("0007"), Ok(7));
    assert_eq!(parse_seed_line("4294967295"), Ok(4294967295));
}

#[test]
fn parse_seed_line_reports_each_fault() {
    assert_eq!(parse_seed_line(""), Err(SeedLineFault::Empty));
    assert_eq!(parse_seed_line("+"), Err(SeedLineFault::InvalidDigit));
    assert_eq!(parse_seed_line("-"), Err(SeedLineFault::InvalidDigit));
    assert_eq!(parse_seed_line("-5"), Err(SeedLineFault::InvalidDigit));
    assert_eq!(parse_seed_line(" 5"), Err(SeedLineFault::InvalidDigit));
    assert_eq!(parse_seed_line("5 "), Err(SeedLineFault::InvalidDigit));
    assert_eq!(parse_seed_line("4294967296"), Err(SeedLineFault::TooLarge));
    assert_eq!(parse_seed_line("99999999999x"), Err(SeedLineFault::TooLarge));
    assert_eq!(parse_seed_line("4294967295x"), Err(SeedLineFault::InvalidDigit));
}

#[test]
fn parse_seeds_file_reads_one_seed_per_line() {
    assert_eq!(parse_seeds_file("7\n8\n"), Ok(Some(vec![7, 8])));
    assert_eq!(parse_seeds_file("7\r\n8"), Ok(Some(vec![7, 8])));
    assert_eq!(parse_seeds_file(""), Ok(Some(vec![])));
}

#[test]
fn parse_seeds_file_names_the_first_bad_line() {
    assert_eq!(
        parse_seeds_file("1\n\n3\nx\n"),
        Err(SeedFileError { line: 2, fault: SeedLineFault::Empty })
    );
    assert_eq!(
        parse_seeds_file("1\n4294967296\n"),
        Err(SeedFileError { line: 2, fault: SeedLineFault::TooLarge })
    );
}

#[test]
fn merging_user_seeds_with_a_seed_file_appends_the_file() {
    let merged = merge_user_defined_seeds(Some(vec![5, 6]), &Some("7\n8\n".to_string()));
    assert_eq!(merged, Ok(Some(vec![5, 6, 7, 8])));
}

#[test]
fn merging_without_a_seed_file_keeps_the_user_seeds() {
    assert_eq!(merge_user_defined_seeds(Some(vec![5, 6]), &None), Ok(Some(vec![5, 6])));
    assert_eq!(merge_user_defined_seeds(None, &None), Ok(None));
    assert_eq!(merge_user_defined_seeds(None, &Some("7\n8".to_string())), Ok(Some(vec![7, 8])));
}

#[test]
fn merging_fails_on_a_bad_seed_file() {
    let merged = merge_user_defined_seeds(Some(vec![5]), &Some("7\nseven\n".to_string()));
    assert_eq!(merged, Err(SeedFileError { line: 2, fault: SeedLineFault::InvalidDigit }));
}

#[test]
fn merged_seeds_are_drawn_from_the_end() {
    let merged = merge_user_defined_seeds(Some(vec![5, 6]), &Some("7\n8\n".to_string()));
    let mut iter = SeedIterator::new(merged.unwrap());
    assert_eq!(iter.remaining(), Some(4));
    assert_eq!(iter.next(), Some(8));
    assert_eq!(iter.next(), Some(7));
    assert_eq!(iter.next(), Some(6));
    assert_eq!(iter.next(), Some(5));
    assert_eq!(iter.next(), None);
    assert_eq!(iter.next(), None);
}

#[test]
fn a_cap_truncates_a_list() {
    let mut iter = SeedIterator::new(Some(vec![1, 2, 3])).take(2);
    assert_eq!(iter.remaining(), Some(2));
    assert_eq!(iter.next(), Some(3));
    assert_eq!(iter.next(), Some(2));
    assert_eq!(iter.next(), None);
    let mut wide = SeedIterator::new(Some(vec![1])).take(5).take(9);
    assert_eq!(wide.remaining(), Some(1));
    assert_eq!(wide.next(), Some(1));
    assert_eq!(wide.next(), None);
}

#[test]
fn the_random_stream_does_not_end() {
    let mut iter = SeedIterator::new(None);
    assert_eq!(iter.remaining(), None);
    for _ in 0..1000 {
        assert!(iter.next().is_some());
    }
    assert_eq!(iter.take(0).next(), None);
}

#[test]
fn seed_file_errors_have_messages() {
    let error = SeedFileError { line: 12, fault: SeedLineFault::TooLarge };
    assert_eq!(error.message(), "seed file, line 12: seed is greater than 4294967295");
    assert_eq!(SeedLineFault::Empty.message(), "cannot parse a seed from an empty line");
    assert_eq!(SeedLineFault::InvalidDigit.message(), "invalid digit found in seed");
}
