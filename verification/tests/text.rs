use host_monitor::stat::assemble::CpuReport;
use host_monitor::stat::home::CommandOutput;
use host_monitor::stat::{CpuUsageInfo, ParseError, Stat};

fn one_to_ten() -> CpuUsageInfo {
    CpuUsageInfo {
        user: 1,
        nice: 2,
        system: 3,
        idle: 4,
        io_wait: 5,
        irq: 6,
        soft_irq: 7,
        steal_stolen: 8,
        guest: 9,
        guest_nice: 10,
    }
}

fn cores_written_as(value: &str) -> u64 {
    let report = CpuReport {
        common_fields: vec![(String::from("cpu cores"), String::from(value))],
        cpu_count: 1,
    };
    Stat::get_cup_info(Ok(report)).unwrap().physics_core_num
}

fn home_dir_in(record: &str) -> String {
    let lookup = CommandOutput { success: true, stdout: record.as_bytes().to_vec() };
    Stat::get_user_home_dir("alice", Some(lookup))
}

#[test]
fn white_space_is_what_the_standard_library_calls_so() {
    let mut code: u32 = 0;
    while code <= 0x11000 {
        if let Some(c) = char::from_u32(code) {
            if c != '\n' {
                let text = format!("cpu{}1 2 3 4 5 6 7 8 9 10", c);
                let expected = if c.is_whitespace() {
                    Ok(one_to_ten())
                } else {
                    Err(ParseError::MissingCpuLine)
                };
                assert_eq!(Stat::read_proc_stat(&text), expected, "U+{:04X}", code);
            }
        }
        code += 1;
    }
}

#[test]
fn line_feed_ends_a_line() {
    assert_eq!(Stat::read_proc_stat("cpu\n1 2 3 4 5 6 7 8 9 10"), Err(ParseError::MissingField));
    assert_eq!(Stat::read_proc_stat("cpu 1 2 3 4 5\n6 7 8 9 10"), Err(ParseError::MissingField));
    // a carriage return is white space like any other
    assert_eq!(Stat::read_proc_stat("cpu\r1 2 3 4 5 6 7 8 9 10\r"), Ok(one_to_ten()));
}

#[test]
fn tokens_are_those_of_the_standard_library() {
    let lines = [
        "cpu 1 2 3 4 5 6 7 8 9 10",
        "cpu 1 2 3 4 5 6 7 8 9 10 ",
        "\tcpu\t1\t2\t3\t4\t5\t6\t7\t8\t9\t10",
        "   cpu   1   2   3   4   5   6   7   8   9   10   11   12",
        "cpu 1 2 3 4 5 6 7 8 9",
        "cpu",
        " ",
        "",
        "cpu1 2 3 4 5 6 7 8 9 10 11",
        "c pu 1 2 3 4 5 6 7 8 9 10",
        "cpu 1\u{2003}2\u{2028}3\u{205f}4\u{1680}5 6 7 8 9 10",
    ];
    for line in lines {
        let tokens: Vec<&str> = line.split_whitespace().collect();
        let expected = if tokens.first() != Some(&"cpu") {
            Err(ParseError::MissingCpuLine)
        } else if tokens.len() < 11 {
            Err(ParseError::MissingField)
        } else {
            Ok(one_to_ten())
        };
        assert_eq!(Stat::read_proc_stat(line), expected, "line {:?}", line);
    }
}

#[test]
fn numbers_are_those_of_the_standard_library() {
    let values = [
        "0", "4", "04", "+4", "128", "18446744073709551615", "+18446744073709551615",
        "018446744073709551615", "18446744073709551616", "28446744073709551615",
        "184467440737095516150", "", "+", "-", "-4", "+-4", "++4", "4+", " 4", "4 ", "4 4",
        "4.0", "4e0", "0x4", "four", "\u{664}", "\u{ff14}",
    ];
    for value in values {
        let expected = value.parse::<u64>().unwrap_or(0);
        assert_eq!(cores_written_as(value), expected, "value {:?}", value);
    }
}

#[test]
fn fields_are_those_of_the_standard_library() {
    let records = [
        "",
        ":",
        ":::::",
        "::::::",
        "a:b:c:d:e:f",
        "a:b:c:d:e:f:g",
        "a:b:c:d:e:f:",
        "a:b:c:d:e",
        "a:b:c:d:e:",
        " a:b:c:d:e:f ",
        "\n\ta:b:c:d:e: f \n",
        "a:b:c:d:e:f\ng:h:i:j:k:l",
        "a:b:c:d:e:\u{3000}f\u{3000}:g",
        "a:b:c:d:e:f\u{3000}",
        "\u{a0}:b:c:d:e:f:g",
        " \t\r\n",
        "no colon at all",
    ];
    for record in records {
        let fields: Vec<&str> = record.trim().split(':').collect();
        let expected = if fields.len() >= 6 { fields[5] } else { "" };
        assert_eq!(home_dir_in(record), expected, "record {:?}", record);
    }
}
