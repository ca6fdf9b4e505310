use host_monitor::sampler::Sampler;
use host_monitor::stat::{CpuUsageInfo, ParseError, Percent, Stat};

fn counters(values: [u64; 10]) -> CpuUsageInfo {
    CpuUsageInfo {
        user: values[0],
        nice: values[1],
        system: values[2],
        idle: values[3],
        io_wait: values[4],
        irq: values[5],
        soft_irq: values[6],
        steal_stolen: values[7],
        guest: values[8],
        guest_nice: values[9],
    }
}

fn before() -> CpuUsageInfo {
    counters([1000, 200, 300, 5000, 50, 10, 5, 0, 0, 0])
}

fn after() -> CpuUsageInfo {
    counters([1100, 200, 300, 5050, 50, 10, 5, 0, 0, 0])
}

const STAT_TEXT: &str = "intr 12345 0 0\ncpu  1000 200 300 5000 50 10 5 0 0 0\ncpu0 500 100 150 2500 25 5 3 0 0 0\ncpu1 500 100 150 2500 25 5 2 0 0 0\nctxt 99\n";

#[test]
fn reads_the_aggregate_line() {
    assert_eq!(Stat::read_proc_stat(STAT_TEXT), Ok(before()));
}

#[test]
fn reads_each_counter_into_its_own_field() {
    let parsed = Stat::read_proc_stat("cpu 1 2 3 4 5 6 7 8 9 10\n").unwrap();
    assert_eq!(parsed.user, 1);
    assert_eq!(parsed.nice, 2);
    assert_eq!(parsed.system, 3);
    assert_eq!(parsed.idle, 4);
    assert_eq!(parsed.io_wait, 5);
    assert_eq!(parsed.irq, 6);
    assert_eq!(parsed.soft_irq, 7);
    assert_eq!(parsed.steal_stolen, 8);
    assert_eq!(parsed.guest, 9);
    assert_eq!(parsed.guest_nice, 10);
}

#[test]
fn per_cpu_lines_alone_give_no_counters() {
    let text = "cpu0 500 100 150 2500 25 5 3 0 0 0\ncpu1 500 100 150 2500 25 5 2 0 0 0\n";
    assert_eq!(Stat::read_proc_stat(text), Err(ParseError::MissingCpuLine));
}

#[test]
fn empty_text_gives_no_counters() {
    assert_eq!(Stat::read_proc_stat(""), Err(ParseError::MissingCpuLine));
    assert_eq!(Stat::read_proc_stat("\n\n"), Err(ParseError::MissingCpuLine));
}

#[test]
fn label_must_be_the_whole_first_token() {
    assert_eq!(Stat::read_proc_stat("cpus 1 2 3 4 5 6 7 8 9 10"), Err(ParseError::MissingCpuLine));
    assert_eq!(Stat::read_proc_stat("cp 1 2 3 4 5 6 7 8 9 10"), Err(ParseError::MissingCpuLine));
    assert_eq!(Stat::read_proc_stat("x cpu 1 2 3 4 5 6 7 8 9 10"), Err(ParseError::MissingCpuLine));
}

#[test]
fn any_white_space_separates_tokens() {
    let expected = Ok(counters([1, 2, 3, 4, 5, 6, 7, 8, 9, 10]));
    assert_eq!(Stat::read_proc_stat("  cpu\t1 2  3 4 5 6 7 8 9 10 \r\n"), expected);
    assert_eq!(Stat::read_proc_stat("cpu\u{a0}1\u{3000}2 3 4 5 6 7 8 9 10"), expected);
}

#[test]
fn last_line_needs_no_line_feed() {
    assert_eq!(Stat::read_proc_stat("ctxt 1\ncpu 1 2 3 4 5 6 7 8 9 10"), Ok(counters([1, 2, 3, 4, 5, 6, 7, 8, 9, 10])));
}

#[test]
fn first_aggregate_line_decides() {
    let text = "cpu 1 2 3 4 5 6 7 8 9 10\ncpu 11 12 13 14 15 16 17 18 19 20\n";
    assert_eq!(Stat::read_proc_stat(text), Ok(counters([1, 2, 3, 4, 5, 6, 7, 8, 9, 10])));
    let broken_first = "cpu 1 2 3\ncpu 11 12 13 14 15 16 17 18 19 20\n";
    assert_eq!(Stat::read_proc_stat(broken_first), Err(ParseError::MissingField));
}

#[test]
fn tokens_after_the_tenth_counter_are_ignored() {
    assert_eq!(
        Stat::read_proc_stat("cpu 1 2 3 4 5 6 7 8 9 10 extra -1"),
        Ok(counters([1, 2, 3, 4, 5, 6, 7, 8, 9, 10]))
    );
}

#[test]
fn fewer_than_ten_counters_is_an_error() {
    assert_eq!(Stat::read_proc_stat("cpu"), Err(ParseError::MissingField));
    assert_eq!(Stat::read_proc_stat("cpu 1 2 3 4 5 6 7 8 9"), Err(ParseError::MissingField));
    assert_eq!(Stat::read_proc_stat("cpu 1 2 x"), Err(ParseError::MissingField));
}

#[test]
fn a_counter_that_is_no_number_is_an_error() {
    assert_eq!(Stat::read_proc_stat("cpu 1 2 x 4 5 6 7 8 9 10"), Err(ParseError::InvalidField));
    assert_eq!(Stat::read_proc_stat("cpu 1 2 3 4 5 6 7 8 9 -10"), Err(ParseError::InvalidField));
    assert_eq!(Stat::read_proc_stat("cpu 1.5 2 3 4 5 6 7 8 9 10"), Err(ParseError::InvalidField));
    assert_eq!(Stat::read_proc_stat("cpu + 2 3 4 5 6 7 8 9 10"), Err(ParseError::InvalidField));
    assert_eq!(Stat::read_proc_stat("cpu 1_0 2 3 4 5 6 7 8 9 10"), Err(ParseError::InvalidField));
}

#[test]
fn counters_are_unsigned_64_bit_numbers() {
    let text = "cpu 18446744073709551615 +2 003 4 5 6 7 8 9 10";
    assert_eq!(Stat::read_proc_stat(text), Ok(counters([u64::MAX, 2, 3, 4, 5, 6, 7, 8, 9, 10])));
    let too_large = "cpu 18446744073709551616 2 3 4 5 6 7 8 9 10";
    assert_eq!(Stat::read_proc_stat(too_large), Err(ParseError::InvalidField));
    let far_too_large = "cpu 1 2 3 4 5 6 7 8 9 99999999999999999999999999999999";
    assert_eq!(Stat::read_proc_stat(far_too_large), Err(ParseError::InvalidField));
}

#[test]
fn reads_numbers_as_the_standard_parser_does() {
    for token in ["0", "7", "+7", "007", "18446744073709551615", "18446744073709551616", "+", "-0", "++1", "1+", "12a", "\u{663}"] {
        let line = format!("cpu {} 2 3 4 5 6 7 8 9 10 end", token);
        let expected = match token.parse::<u64>() {
            Ok(value) => Ok(counters([value, 2, 3, 4, 5, 6, 7, 8, 9, 10])),
            Err(_) => Err(ParseError::InvalidField),
        };
        assert_eq!(Stat::read_proc_stat(&line), expected, "token {:?}", token);
    }
}

#[test]
fn total_time_is_the_sum_of_all_counters() {
    assert_eq!(CpuUsageInfo::get_total_time(&before()), 6565);
    assert_eq!(CpuUsageInfo::get_total_time(&after()), 6715);
    assert_eq!(CpuUsageInfo::get_total_time(&counters([1, 2, 3, 4, 5, 6, 7, 8, 9, 10])), 55);
}

#[test]
fn total_time_does_not_overflow() {
    let full = counters([u64::MAX; 10]);
    assert_eq!(CpuUsageInfo::get_total_time(&full), 10 * (u64::MAX as u128));
}

#[test]
fn usage_of_the_worked_example() {
    assert_eq!(Stat::calculate_cpu_usage(after(), before()), Percent { hundredths: 6667 });
}

#[test]
fn identical_snapshots_give_zero() {
    assert_eq!(Stat::calculate_cpu_usage(before(), before()).hundredths, 0);
    assert_eq!(Stat::calculate_cpu_usage(after(), after()).hundredths, 0);
    let full = counters([u64::MAX; 10]);
    assert_eq!(Stat::calculate_cpu_usage(full, full).hundredths, 0);
}

#[test]
fn swapped_snapshots_give_zero() {
    assert_eq!(Stat::calculate_cpu_usage(before(), after()).hundredths, 0);
    assert_ne!(Stat::calculate_cpu_usage(before(), after()), Stat::calculate_cpu_usage(after(), before()));
}

#[test]
fn only_idle_time_gives_zero() {
    let later = counters([1000, 200, 300, 5100, 50, 10, 5, 0, 0, 0]);
    assert_eq!(Stat::calculate_cpu_usage(later, before()).hundredths, 0);
}

#[test]
fn counters_that_went_back_give_zero() {
    let reset = counters([10, 0, 5, 100, 0, 0, 0, 0, 0, 0]);
    assert_eq!(Stat::calculate_cpu_usage(reset, before()).hundredths, 0);
    // more idle time than time in total: the used time is negative
    let idle_only_grew = counters([900, 200, 300, 5200, 50, 10, 5, 0, 0, 0]);
    assert_eq!(Stat::calculate_cpu_usage(idle_only_grew, before()).hundredths, 0);
}

#[test]
fn no_idle_time_gives_a_hundred_percent() {
    let later = counters([1100, 200, 350, 5000, 50, 10, 5, 0, 0, 0]);
    assert_eq!(Stat::calculate_cpu_usage(later, before()).hundredths, 10000);
}

#[test]
fn usage_is_rounded_to_the_nearest_hundredth() {
    let zero = counters([0; 10]);
    let pair = |used: u64, idle: u64| counters([used, 0, 0, idle, 0, 0, 0, 0, 0, 0]);
    // 1/3 and 2/3
    assert_eq!(Stat::calculate_cpu_usage(pair(1, 2), zero).hundredths, 3333);
    assert_eq!(Stat::calculate_cpu_usage(pair(2, 1), zero).hundredths, 6667);
    // 1/8 = 12.5 %
    assert_eq!(Stat::calculate_cpu_usage(pair(1, 7), zero).hundredths, 1250);
    // 1/7 = 14.2857... %
    assert_eq!(Stat::calculate_cpu_usage(pair(1, 6), zero).hundredths, 1429);
    // 0.004999... % goes down, 0.005 % goes up
    assert_eq!(Stat::calculate_cpu_usage(pair(1, 20000), zero).hundredths, 0);
    assert_eq!(Stat::calculate_cpu_usage(pair(1, 19999), zero).hundredths, 1);
    // 0.015 % and 0.025 % both go up
    assert_eq!(Stat::calculate_cpu_usage(pair(3, 19997), zero).hundredths, 2);
    assert_eq!(Stat::calculate_cpu_usage(pair(5, 19995), zero).hundredths, 3);
    // 99.995 % goes up to 100 %
    assert_eq!(Stat::calculate_cpu_usage(pair(19999, 1), zero).hundredths, 10000);
}

#[test]
fn idle_counter_that_went_back_can_give_more_than_a_hundred_percent() {
    let earlier = counters([0, 0, 0, 100, 0, 0, 0, 0, 0, 0]);
    let later = counters([100, 0, 0, 50, 0, 0, 0, 0, 0, 0]);
    assert_eq!(Stat::calculate_cpu_usage(later, earlier).hundredths, 20000);
}

#[test]
fn usage_of_the_largest_counters() {
    let zero = counters([0; 10]);
    let full = counters([u64::MAX, u64::MAX, u64::MAX, 0, u64::MAX, u64::MAX, u64::MAX, u64::MAX, u64::MAX, u64::MAX]);
    assert_eq!(Stat::calculate_cpu_usage(full, zero).hundredths, 10000);
    let idle_was_full = counters([0, 0, 0, u64::MAX, 0, 0, 0, 0, 0, 0]);
    let busy = counters([u64::MAX, 1, 0, 0, 0, 0, 0, 0, 0, 0]);
    // one tick in total, 2^64 of them used
    assert_eq!(Stat::calculate_cpu_usage(busy, idle_was_full).hundredths, (1u128 << 64) * 10000);
}

#[test]
fn default_percent_is_zero() {
    assert_eq!(Percent::default(), Percent { hundredths: 0 });
}

#[test]
fn sampler_starts_from_the_first_read() {
    assert_eq!(Sampler::start(STAT_TEXT), Ok(Sampler { previous: before() }));
}

#[test]
fn sampler_does_not_start_without_counters() {
    assert_eq!(Sampler::start("cpu0 1 2 3 4 5 6 7 8 9 10\n"), Err(ParseError::MissingCpuLine));
    assert_eq!(Sampler::start("cpu 1 2 3\n"), Err(ParseError::MissingField));
    assert_eq!(Sampler::start("cpu a b c d e f g h i j\n"), Err(ParseError::InvalidField));
}

#[test]
fn tick_measures_against_the_previous_counters_and_replaces_them() {
    let mut sampler = Sampler::start(STAT_TEXT).unwrap();
    let usage = sampler.tick("cpu  1100 200 300 5050 50 10 5 0 0 0\n");
    assert_eq!(usage, Ok(Percent { hundredths: 6667 }));
    assert_eq!(sampler.previous, after());
    // nothing happened since: the same counters again
    let usage = sampler.tick("cpu  1100 200 300 5050 50 10 5 0 0 0\n");
    assert_eq!(usage, Ok(Percent { hundredths: 0 }));
    assert_eq!(sampler.previous, after());
    // 50 ticks more, 25 of them idle
    let usage = sampler.tick("cpu  1125 200 300 5075 50 10 5 0 0 0\n");
    assert_eq!(usage, Ok(Percent { hundredths: 5000 }));
}

#[test]
fn failed_tick_keeps_the_previous_counters() {
    let mut sampler = Sampler::start(STAT_TEXT).unwrap();
    assert_eq!(sampler.tick("cpu0 1 2 3 4 5 6 7 8 9 10\n"), Err(ParseError::MissingCpuLine));
    assert_eq!(sampler.previous, before());
    assert_eq!(sampler.tick("cpu 1 2 3 4 5 6 7 8 9 x\n"), Err(ParseError::InvalidField));
    assert_eq!(sampler.previous, before());
    assert_eq!(sampler.tick("cpu  1100 200 300 5050 50 10 5 0 0 0\n"), Ok(Percent { hundredths: 6667 }));
}
