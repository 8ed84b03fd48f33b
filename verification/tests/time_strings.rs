use snipe::calendar::WallClock;
use snipe::instant::{instant_in_zone, resolve_instant};
use snipe::text::{read_numeral, separates, text_eq};
use snipe::timestring::{is_valid_partial, parse_partial, PartialTime};
use snipe::zone::LocalInstant;
use snipe::{can_be_genesis, parse_timezone, render_block_time, split_time, time_to_unix};
use snipe::{Config, Error};

fn get_test_config() -> Config {
    Config::new("http://localhost:8545".to_string(), "UTC".to_string())
}

fn get_genesis_unix() -> u64 {
    1438269973
}

fn config_in(zone: &str) -> Config {
    Config::new("http://localhost:8545".to_string(), zone.to_string())
}

#[test]
fn time_zone_to_tz() {
    let tz = parse_timezone("UTC").unwrap();
    assert_eq!(tz.name(), "UTC");
}

#[test]
fn split_time_to_components() {
    let time = "2015";
    let time_components = split_time(time);
    assert_eq!(time_components[0], "2015");

    let time = "2015-07";
    let time_components = split_time(time);
    assert_eq!(time_components[0], "2015");
    assert_eq!(time_components[1], "07");

    let time = "2015-07-30";
    let time_components = split_time(time);
    assert_eq!(time_components[0], "2015");
    assert_eq!(time_components[1], "07");
    assert_eq!(time_components[2], "30");

    let time = "2015-07-30 03";
    let time_components = split_time(time);
    assert_eq!(time_components[0], "2015");
    assert_eq!(time_components[1], "07");
    assert_eq!(time_components[2], "30");
    assert_eq!(time_components[3], "03");

    let time = "2015-07-30 03:26";
    let time_components = split_time(time);
    assert_eq!(time_components[0], "2015");
    assert_eq!(time_components[1], "07");
    assert_eq!(time_components[2], "30");
    assert_eq!(time_components[3], "03");
    assert_eq!(time_components[4], "26");

    let time = "2015-07-30 03:26:13";
    let time_components = split_time(time);
    assert_eq!(time_components[0], "2015");
    assert_eq!(time_components[1], "07");
    assert_eq!(time_components[2], "30");
    assert_eq!(time_components[3], "03");
    assert_eq!(time_components[4], "26");
    assert_eq!(time_components[5], "13");
}

#[test]
fn genesis_conversion() {
    // year
    let time = vec!["2016"];
    assert!(!can_be_genesis(&time));

    let time = vec!["2015"];
    assert!(can_be_genesis(&time));

    // year and month
    let time = vec!["2015", "08"];
    assert!(!can_be_genesis(&time));

    let time = vec!["2015", "07"];
    assert!(can_be_genesis(&time));

    // year, month, and day
    let time = vec!["2015", "07", "31"];
    assert!(!can_be_genesis(&time));

    let time = vec!["2015", "07", "30"];
    assert!(can_be_genesis(&time));

    // year, month, day, hour
    let time = vec!["2015", "07", "30", "16"];
    assert!(!can_be_genesis(&time));

    let time = vec!["2015", "07", "30", "15"];
    assert!(can_be_genesis(&time));

    // year, month, day, hour, minute
    let time = vec!["2015", "07", "30", "15", "27"];
    assert!(!can_be_genesis(&time));

    let time = vec!["2015", "07", "30", "15", "26"];
    assert!(can_be_genesis(&time));

    // year, month, day, hour, minute, second
    let time = vec!["2015", "07", "30", "15", "26", "14"];
    assert!(!can_be_genesis(&time));

    let time = vec!["2015", "07", "30", "15", "26", "13"];
    assert!(can_be_genesis(&time));
}

#[test]
fn year_to_unix_genesis() {
    let time = "2015";
    let unix = time_to_unix(&get_test_config(), &time).unwrap();
    assert_eq!(unix, get_genesis_unix());
}

#[test]
fn year_to_unix_first_timestamp() {
    let time = "2016";
    let unix = time_to_unix(&get_test_config(), &time).unwrap();
    assert_eq!(unix, 1451606400);
}

#[test]
fn month_to_unix_genesis() {
    let time = "2015-07";
    let unix = time_to_unix(&get_test_config(), &time).unwrap();
    assert_eq!(unix, get_genesis_unix());
}

#[test]
fn month_to_unix_first_timestamp() {
    let time = "2016-02";
    let unix = time_to_unix(&get_test_config(), &time).unwrap();
    assert_eq!(unix, 1454284800);
}

#[test]
fn day_to_unix_genesis() {
    let time = "2015-07-30";
    let unix = time_to_unix(&get_test_config(), &time).unwrap();
    assert_eq!(unix, get_genesis_unix());
}

#[test]
fn hour_to_unix_first_timestamp() {
    let time = "2016-02-01 01";
    let unix = time_to_unix(&get_test_config(), &time).unwrap();
    assert_eq!(unix, 1454288400);
}

#[test]
fn minute_to_unix_genesis() {
    let time = "2015-07-30 15:26";
    let unix = time_to_unix(&get_test_config(), &time).unwrap();
    assert_eq!(unix, get_genesis_unix());
}

#[test]
fn minute_to_unix_first_timestamp() {
    let time = "2016-02-01 01:07";
    let unix = time_to_unix(&get_test_config(), &time).unwrap();
    assert_eq!(unix, 1454288820);
}

#[test]
fn second_to_unix_genesis() {
    let time = "2015-07-30 15:26:13";
    let unix = time_to_unix(&get_test_config(), &time).unwrap();
    assert_eq!(unix, get_genesis_unix());
}

#[test]
fn second_to_unix_first_timestamp() {
    let time = "2016-02-01 01:07:05";
    let unix = time_to_unix(&get_test_config(), &time).unwrap();
    assert_eq!(unix, 1454288825);
}

#[test]
fn tz_time_to_unix_genesis() {
    let mut config = get_test_config();
    config.time_zone = Some("America/New_York".to_string());
    let time = "2015-07-30 11:26:13";
    let unix = time_to_unix(&config, &time).unwrap();
    assert_eq!(unix, get_genesis_unix());
}

#[test]
fn config_holds_what_it_was_given() {
    let config = Config::new("http://node:8545".to_string(), "Europe/Rome".to_string());
    assert_eq!(config.snipe_rpc_url(), "http://node:8545");
    assert_eq!(config.time_zone(), "Europe/Rome");
    assert_eq!(config.snipe_rpc_url, Some("http://node:8545".to_string()));
    assert_eq!(config.time_zone, Some("Europe/Rome".to_string()));
}

#[test]
fn split_keeps_empty_components() {
    assert_eq!(split_time(""), vec![""]);
    assert_eq!(split_time("2015-"), vec!["2015", ""]);
    assert_eq!(split_time("-"), vec!["", ""]);
    assert_eq!(split_time("a--b"), vec!["a", "", "b"]);
    assert_eq!(split_time(" 2015"), vec!["", "2015"]);
    assert_eq!(split_time("20:15 07-30"), vec!["20", "15", "07", "30"]);
    assert_eq!(split_time("2015/07"), vec!["2015/07"]);
    assert_eq!(split_time("é-ü"), vec!["é", "ü"]);
}

#[test]
fn separators_are_dash_space_colon() {
    assert!(separates('-'));
    assert!(separates(' '));
    assert!(separates(':'));
    assert!(!separates('/'));
    assert!(!separates('T'));
    assert!(!separates('0'));
}

#[test]
fn texts_compare_by_characters() {
    assert!(text_eq("", ""));
    assert!(text_eq("2015", "2015"));
    assert!(!text_eq("2015", "2016"));
    assert!(!text_eq("2015", "201"));
    assert!(!text_eq("201", "2015"));
    assert!(text_eq("é", "é"));
}

#[test]
fn numerals_are_digits_only() {
    assert_eq!(read_numeral("2015", 0, 10, u32::MAX as u64), Some(2015));
    assert_eq!(read_numeral("0007", 0, 10, u32::MAX as u64), Some(7));
    assert_eq!(read_numeral("4294967295", 0, 10, u32::MAX as u64), Some(4294967295));
    assert_eq!(read_numeral("4294967296", 0, 10, u32::MAX as u64), None);
    assert_eq!(read_numeral("99999999999999999999999999", 0, 10, u32::MAX as u64), None);
    assert_eq!(read_numeral("", 0, 10, u32::MAX as u64), None);
    assert_eq!(read_numeral("+7", 0, 10, u32::MAX as u64), None);
    assert_eq!(read_numeral("-7", 0, 10, u32::MAX as u64), None);
    assert_eq!(read_numeral("7 ", 0, 10, u32::MAX as u64), None);
    assert_eq!(read_numeral("1f", 0, 10, u32::MAX as u64), None);
    assert_eq!(read_numeral("1f", 0, 16, u64::MAX), Some(31));
    assert_eq!(read_numeral("1F", 0, 16, u64::MAX), Some(31));
    assert_eq!(read_numeral("1g", 0, 16, u64::MAX), None);
    assert_eq!(read_numeral("0x1f", 2, 16, u64::MAX), Some(31));
    assert_eq!(read_numeral("0x", 2, 16, u64::MAX), None);
    assert_eq!(read_numeral("0x", 3, 16, u64::MAX), None);
    assert_eq!(read_numeral("12", usize::MAX, 10, u64::MAX), None);
    assert_eq!(read_numeral("12", 1, 10, u64::MAX), Some(2));
    assert_eq!(read_numeral("12", 0, 10, 11), None);
    assert_eq!(read_numeral("12", 0, 10, 12), Some(12));
    assert_eq!(read_numeral("ffffffffffffffff", 0, 16, u64::MAX), Some(u64::MAX));
    assert_eq!(read_numeral("10000000000000000", 0, 16, u64::MAX), None);
    assert_eq!(read_numeral("zz", 0, 36, u64::MAX), Some(35 * 36 + 35));
}

#[test]
fn partial_time_takes_one_to_six_fields_in_range() {
    assert!(is_valid_partial(&vec![2015]));
    assert!(is_valid_partial(&vec![2015, 7, 30, 15, 26, 13]));
    assert!(is_valid_partial(&vec![0]));
    assert!(is_valid_partial(&vec![262142]));
    assert!(!is_valid_partial(&vec![262143]));
    assert!(!is_valid_partial(&vec![]));
    assert!(!is_valid_partial(&vec![2015, 7, 30, 15, 26, 13, 0]));
    assert!(!is_valid_partial(&vec![2015, 0]));
    assert!(!is_valid_partial(&vec![2015, 13]));
    assert!(!is_valid_partial(&vec![2015, 1, 0]));
    assert!(is_valid_partial(&vec![2015, 1, 31]));
    assert!(!is_valid_partial(&vec![2015, 1, 32]));
    assert!(!is_valid_partial(&vec![2015, 4, 31]));
    assert!(is_valid_partial(&vec![2015, 4, 30]));
    assert!(!is_valid_partial(&vec![2015, 2, 29]));
    assert!(is_valid_partial(&vec![2016, 2, 29]));
    assert!(!is_valid_partial(&vec![1900, 2, 29]));
    assert!(is_valid_partial(&vec![2000, 2, 29]));
    assert!(is_valid_partial(&vec![2015, 7, 30, 23]));
    assert!(!is_valid_partial(&vec![2015, 7, 30, 24]));
    assert!(is_valid_partial(&vec![2015, 7, 30, 23, 59]));
    assert!(!is_valid_partial(&vec![2015, 7, 30, 23, 60]));
    assert!(is_valid_partial(&vec![2015, 7, 30, 23, 59, 59]));
    assert!(!is_valid_partial(&vec![2015, 7, 30, 23, 59, 60]));
    assert!(PartialTime::from_fields(vec![2015, 13]).is_none());
    let partial = PartialTime::from_fields(vec![2015, 12]).unwrap();
    assert_eq!(partial.fields(), &vec![2015, 12]);
}

#[test]
fn missing_fields_take_their_least_value() {
    let year = parse_partial("2016").unwrap();
    assert_eq!(
        year.completed(),
        WallClock { year: 2016, month: 1, day: 1, hour: 0, minute: 0, second: 0 }
    );
    let hour = parse_partial("2016-02-03 04").unwrap();
    assert_eq!(
        hour.completed(),
        WallClock { year: 2016, month: 2, day: 3, hour: 4, minute: 0, second: 0 }
    );
    let full = parse_partial("2016-02-03 04:05:06").unwrap();
    assert_eq!(
        full.completed(),
        WallClock { year: 2016, month: 2, day: 3, hour: 4, minute: 5, second: 6 }
    );
}

#[test]
fn fields_agree_with_a_reference_as_far_as_they_go() {
    let genesis = WallClock { year: 2015, month: 7, day: 30, hour: 15, minute: 26, second: 13 };
    assert!(parse_partial("2015").unwrap().starts(&genesis));
    assert!(parse_partial("2015-7").unwrap().starts(&genesis));
    assert!(parse_partial("2015-07-30 15:26:13").unwrap().starts(&genesis));
    assert!(!parse_partial("2015-07-30 15:26:14").unwrap().starts(&genesis));
    assert!(!parse_partial("2015-08").unwrap().starts(&genesis));
    assert!(!parse_partial("2016").unwrap().starts(&genesis));
    assert_eq!(genesis.field(0), 2015);
    assert_eq!(genesis.field(1), 7);
    assert_eq!(genesis.field(2), 30);
    assert_eq!(genesis.field(3), 15);
    assert_eq!(genesis.field(4), 26);
    assert_eq!(genesis.field(5), 13);
}

#[test]
fn malformed_time_strings_are_refused() {
    let config = get_test_config();
    for time in [
        "", "abc", "2015-", "-2015", "2015-13", "2015-00", "2015-02-29", "2015-07-30 24",
        "2015-07-30 15:60", "2015-07-30 15:26:60", "2015-07-30 15:26:13:00", "2015-07-30T15",
        "+2015", "20 15 07 30 15 26 13", "262143", "4294967296", "2015.5",
    ] {
        assert_eq!(time_to_unix(&config, time), Err(Error::MalformedTimeString), "{time:?}");
        assert!(parse_partial(time).is_err(), "{time:?}");
    }
}

#[test]
fn separators_may_stand_anywhere() {
    let config = get_test_config();
    assert_eq!(time_to_unix(&config, "2016:02 01-01"), Ok(1454288400));
    assert_eq!(time_to_unix(&config, "2016-2-1 1:7:5"), Ok(1454288825));
}

#[test]
fn times_before_genesis_are_refused() {
    let config = get_test_config();
    assert_eq!(time_to_unix(&config, "2014"), Err(Error::PredatesGenesis));
    assert_eq!(time_to_unix(&config, "1969"), Err(Error::PredatesGenesis));
    assert_eq!(time_to_unix(&config, "0"), Err(Error::PredatesGenesis));
    assert_eq!(time_to_unix(&config, "2015-06"), Err(Error::PredatesGenesis));
    assert_eq!(time_to_unix(&config, "2015-07-29"), Err(Error::PredatesGenesis));
    assert_eq!(time_to_unix(&config, "2015-07-30 14"), Err(Error::PredatesGenesis));
    assert_eq!(time_to_unix(&config, "2015-07-30 15:25"), Err(Error::PredatesGenesis));
    assert_eq!(time_to_unix(&config, "2015-07-30 15:26:12"), Err(Error::PredatesGenesis));
    assert_eq!(time_to_unix(&config, "2015-07-30 15:26:14"), Ok(1438269974));
    assert_eq!(time_to_unix(&config, "2015-07-30 15:27"), Ok(1438270020));
    assert_eq!(time_to_unix(&config, "2015-07-31"), Ok(1438300800));
    assert_eq!(time_to_unix(&config, "2015-08"), Ok(1438387200));
}

#[test]
fn unknown_time_zones_are_refused_first() {
    assert_eq!(time_to_unix(&config_in("Mars/Olympus"), "2016"), Err(Error::InvalidTimezone));
    assert_eq!(time_to_unix(&config_in("Mars/Olympus"), "junk"), Err(Error::InvalidTimezone));
    assert_eq!(time_to_unix(&config_in(""), "2016"), Err(Error::InvalidTimezone));
    assert!(matches!(parse_timezone("utc"), Err(Error::InvalidTimezone)));
    assert!(matches!(parse_timezone("Mars/Olympus"), Err(Error::InvalidTimezone)));
    assert_eq!(parse_timezone("America/New_York").unwrap().name(), "America/New_York");
}

#[test]
fn genesis_snaps_in_every_zone() {
    let new_york = config_in("America/New_York");
    for time in ["2015", "2015-07", "2015-07-30", "2015-07-30 11", "2015-07-30 11:26"] {
        assert_eq!(time_to_unix(&new_york, time), Ok(1438269973), "{time:?}");
    }
    assert_eq!(time_to_unix(&new_york, "2015-07-30 15"), Ok(1438282800));
    assert_eq!(time_to_unix(&new_york, "2015-07-30 10"), Err(Error::PredatesGenesis));

    let tokyo = config_in("Asia/Tokyo");
    for time in ["2015", "2015-07", "2015-07-31", "2015-07-31 00", "2015-07-31 00:26:13"] {
        assert_eq!(time_to_unix(&tokyo, time), Ok(1438269973), "{time:?}");
    }
    assert_eq!(time_to_unix(&tokyo, "2015-07-30"), Err(Error::PredatesGenesis));

    let kolkata = config_in("Asia/Kolkata");
    assert_eq!(time_to_unix(&kolkata, "2015-07-30 20"), Ok(1438269973));
    assert_eq!(time_to_unix(&kolkata, "2015-07-30 20:56"), Ok(1438269973));
    assert_eq!(time_to_unix(&kolkata, "2015-07-30 20:57"), Ok(1438270020));
}

#[test]
fn wall_clock_is_read_in_the_zone() {
    assert_eq!(time_to_unix(&config_in("America/New_York"), "2016-02-01 01"), Ok(1454306400));
    assert_eq!(time_to_unix(&config_in("Asia/Tokyo"), "2016"), Ok(1451574000));
    let rome = parse_timezone("Europe/Rome").unwrap();
    assert_eq!(instant_in_zone(&rome, "2016-07-01 12:00:00"), Ok(1467367200));
}

#[test]
fn skipped_local_time_is_refused() {
    let new_york = config_in("America/New_York");
    assert_eq!(time_to_unix(&new_york, "2016-03-13 02:30:00"), Err(Error::NonexistentLocalTime));
    assert_eq!(time_to_unix(&new_york, "2016-03-13 02"), Err(Error::NonexistentLocalTime));
    assert_eq!(time_to_unix(&new_york, "2016-03-13 01:59:59"), Ok(1457852399));
    assert_eq!(time_to_unix(&new_york, "2016-03-13 03"), Ok(1457852400));
}

#[test]
fn repeated_local_time_means_the_earlier_instant() {
    let new_york = config_in("America/New_York");
    assert_eq!(time_to_unix(&new_york, "2016-11-06 01:30:00"), Ok(1478410200));
    assert_eq!(time_to_unix(&new_york, "2016-11-06 01"), Ok(1478408400));
    assert_eq!(time_to_unix(&new_york, "2016-11-06 02"), Ok(1478415600));
}

#[test]
fn instants_are_decided_from_the_answers_of_the_zone() {
    let genesis = WallClock { year: 2015, month: 7, day: 30, hour: 15, minute: 26, second: 13 };
    let elsewhere = WallClock { year: 2015, month: 7, day: 31, hour: 0, minute: 26, second: 13 };
    let year = parse_partial("2015").unwrap();
    let day = parse_partial("2015-07-30").unwrap();
    let later = parse_partial("2017").unwrap();

    assert_eq!(resolve_instant(&year, Some(genesis), LocalInstant::Nonexistent), Ok(1438269973));
    assert_eq!(resolve_instant(&year, Some(genesis), LocalInstant::Single(5)), Ok(1438269973));
    assert_eq!(resolve_instant(&day, Some(elsewhere), LocalInstant::Single(5)), Err(Error::PredatesGenesis));
    assert_eq!(resolve_instant(&year, None, LocalInstant::Single(1420070400)), Err(Error::PredatesGenesis));
    assert_eq!(resolve_instant(&later, Some(genesis), LocalInstant::Single(1483228800)), Ok(1483228800));
    assert_eq!(resolve_instant(&later, Some(genesis), LocalInstant::Single(1438269973)), Ok(1438269973));
    assert_eq!(resolve_instant(&later, Some(genesis), LocalInstant::Single(1438269972)), Err(Error::PredatesGenesis));
    assert_eq!(resolve_instant(&later, Some(genesis), LocalInstant::Single(-1)), Err(Error::PredatesGenesis));
    assert_eq!(resolve_instant(&later, Some(genesis), LocalInstant::Nonexistent), Err(Error::NonexistentLocalTime));
    assert_eq!(
        resolve_instant(&later, Some(genesis), LocalInstant::Ambiguous(1483228800, 1483232400)),
        Ok(1483228800)
    );
    assert_eq!(
        resolve_instant(&later, Some(genesis), LocalInstant::Ambiguous(1483232400, 1483228800)),
        Ok(1483228800)
    );
    assert_eq!(
        resolve_instant(&later, Some(genesis), LocalInstant::Ambiguous(1438269972, 1438273572)),
        Err(Error::PredatesGenesis)
    );
}

#[test]
fn block_time_is_written_in_the_zone() {
    let utc = parse_timezone("UTC").unwrap();
    assert_eq!(render_block_time(&utc, 1438269973), Ok("2015-07-30 15:26:13 UTC".to_string()));
    assert_eq!(render_block_time(&utc, 1438269988), Ok("2015-07-30 15:26:28 UTC".to_string()));
    assert_eq!(render_block_time(&utc, 0), Ok("1970-01-01 00:00:00 UTC".to_string()));
    let new_york = parse_timezone("America/New_York").unwrap();
    assert_eq!(render_block_time(&new_york, 1438269973), Ok("2015-07-30 11:26:13 EDT".to_string()));
    assert_eq!(render_block_time(&new_york, 1454288400), Ok("2016-01-31 20:00:00 EST".to_string()));
}

#[test]
fn block_time_without_a_date_is_refused() {
    let utc = parse_timezone("UTC").unwrap();
    assert_eq!(render_block_time(&utc, u64::MAX), Err(Error::TimeOutOfRange));
    assert_eq!(render_block_time(&utc, i64::MAX as u64 + 1), Err(Error::TimeOutOfRange));
    assert_eq!(render_block_time(&utc, i64::MAX as u64), Err(Error::TimeOutOfRange));
    assert_eq!(render_block_time(&utc, 9_000_000_000_000_000), Err(Error::TimeOutOfRange));
}

#[test]
fn errors_have_a_line_of_text() {
    assert_eq!(Error::Rpc("connection refused".to_string()).message(), "connection refused");
    assert_eq!(Error::InvalidTimezone.message(), "Invalid time zone.");
    assert_eq!(Error::MalformedTimeString.message(), "Malformed time string.");
    assert_eq!(Error::PredatesGenesis.message(), "year predates Ethereum");
    assert_eq!(Error::NonexistentLocalTime.message(), "Local time does not exist.");
    assert_eq!(Error::TimeInFuture.message(), "Time is in the future.");
    assert_eq!(Error::TimeOutOfRange.message(), "Time is out of range.");
}
