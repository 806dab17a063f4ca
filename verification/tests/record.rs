use std::path::PathBuf;
use succession::{Compat, Identity, MalformedRecord, Record, Run, Sameness, Tenant};

fn record() -> Record {
    Record::new(
        Identity::new(Run::from_raw(7), Compat::from(18_u32)),
        Tenant {
            pid: 4242,
            started_at: Some(1_723_800_000),
            image: Some(PathBuf::from("/opt/app/helper")),
        },
    )
}

fn with_image(image: &str) -> Record {
    let mut record = record();
    record.tenant.image = Some(PathBuf::from(image));
    record
}

#[test]
fn a_record_survives_a_round_trip() {
    let written = record();
    let read = Record::parse(&written.to_text()).expect("a written record must parse");
    assert_eq!(read, written);
}

#[test]
fn optional_facts_may_be_absent() {
    let bare = Record::new(
        Identity::new(Run::from_raw(1), Compat::from(2_u32)),
        Tenant {
            pid: 3,
            started_at: None,
            image: None,
        },
    );
    let read = Record::parse(&bare.to_text()).expect("a bare record must parse");
    assert_eq!(read, bare);
}

#[test]
fn a_reader_ignores_what_it_does_not_know() {
    // The forward-compatibility rule: a newer tenant may write more.
    let text = format!("{}\nfuture_fact = 9\n", record().to_text());
    assert_eq!(Record::parse(&text).expect("must still parse"), record());
}

#[test]
fn unknown_lines_can_stand_anywhere() {
    let text = record().to_text();
    let inserted = "future_fact = 9\n# a remark\n\nno equals sign\nother = ";
    for (at, _) in text.match_indices('\n') {
        let with = format!("{}\n{inserted}\n{}", &text[..at], &text[at + 1..]);
        assert_eq!(Record::parse(&with), Ok(record()));
    }
    assert_eq!(Record::parse(&format!("{inserted}\n{text}")), Ok(record()));
    assert_eq!(Record::parse(&format!("{text}{inserted}")), Ok(record()));
    // Behind a last line without a newline, and to no avail in a text that is
    // at fault without them.
    let unended = text.trim_end();
    assert_eq!(Record::parse(&format!("{unended}\n{inserted}")), Ok(record()));
    assert_eq!(
        Record::parse(&format!("run = 1\n{inserted}\npid = 2")),
        Err(MalformedRecord::Missing { key: "compat" })
    );
}

#[test]
fn a_path_containing_the_separator_survives() {
    let mut odd = record();
    odd.tenant.image = Some(PathBuf::from("/opt/a=b/helper"));
    let read = Record::parse(&odd.to_text()).expect("must parse");
    assert_eq!(read.tenant.image, odd.tenant.image);
}

#[test]
fn required_keys_are_required() {
    assert_eq!(
        Record::parse("# succession 1\ncompat = 1\npid = 2\n"),
        Err(MalformedRecord::Missing { key: "run" })
    );
    assert_eq!(
        Record::parse("run = 1\ncompat = 1\npid = wat\n"),
        Err(MalformedRecord::NotANumber { key: "pid" })
    );
    assert_eq!(
        Record::parse("run = 1\ncompat = 1\npid = 99999999999\n"),
        Err(MalformedRecord::NotANumber { key: "pid" })
    );
}

#[test]
fn a_pid_alone_cannot_confirm_a_process() {
    let recorded = Tenant {
        pid: 10,
        started_at: None,
        image: None,
    };
    let live = Tenant {
        pid: 10,
        started_at: Some(5),
        image: None,
    };
    assert_eq!(recorded.compare(&live), Sameness::Inconclusive);
}

#[test]
fn one_agreeing_fact_confirms_and_one_disagreeing_fact_refutes() {
    let recorded = record();
    let mut live = recorded.tenant.clone();
    assert_eq!(recorded.tenant.compare(&live), Sameness::Same);

    live.started_at = Some(999);
    assert_eq!(recorded.tenant.compare(&live), Sameness::Different);

    live.started_at = recorded.tenant.started_at;
    live.image = Some(PathBuf::from("/opt/app/something-else"));
    assert_eq!(recorded.tenant.compare(&live), Sameness::Different);

    live.pid = 1;
    assert_eq!(recorded.tenant.compare(&live), Sameness::Different);
}

#[test]
fn the_image_alone_confirms_too() {
    let mut recorded = record().tenant;
    recorded.started_at = None;
    assert_eq!(recorded.compare(&record().tenant), Sameness::Same);
    let elsewhere = with_image("/opt/other/helper").tenant;
    assert_eq!(recorded.compare(&elsewhere), Sameness::Different);
}

#[test]
fn images_are_compared_as_paths() {
    let recorded = with_image("/opt//app/./helper").tenant;
    assert_eq!(recorded.compare(&record().tenant), Sameness::Same);
}

#[test]
fn it_does_not_matter_which_of_two_tenants_is_held_against_the_other() {
    let tenant = |pid: u32, started_at: Option<u64>, image: Option<&str>| Tenant {
        pid,
        started_at,
        image: image.map(PathBuf::from),
    };
    let mut tenants = Vec::new();
    for pid in [1, 2] {
        for started_at in [None, Some(5), Some(6)] {
            for image in [None, Some("/opt/helper"), Some("/opt//helper"), Some("/opt/other")] {
                tenants.push(tenant(pid, started_at, image));
            }
        }
    }
    for one in &tenants {
        for other in &tenants {
            assert_eq!(one.compare(other), other.compare(one));
        }
        let known = one.started_at.is_some() || one.image.is_some();
        assert_eq!(
            one.compare(one),
            if known { Sameness::Same } else { Sameness::Inconclusive }
        );
    }
}

#[test]
fn the_format_is_one_fact_on_each_line() {
    assert_eq!(
        record().to_text(),
        "# succession 1\nrun = 7\ncompat = 18\npid = 4242\nstarted_at = 1723800000\nimage = /opt/app/helper\n"
    );
    let mut bare = record();
    bare.tenant.started_at = None;
    bare.tenant.image = None;
    bare.identity.run = Run::from_raw(u64::MAX);
    bare.identity.compat = Compat::from_raw(0);
    bare.tenant.pid = u32::MAX;
    assert_eq!(
        bare.to_text(),
        "# succession 1\nrun = 18446744073709551615\ncompat = 0\npid = 4294967295\n"
    );
    assert_eq!(Record::parse(&bare.to_text()), Ok(bare));
}

#[test]
fn an_image_that_fits_a_line_is_read_back() {
    for image in ["", "#", "=", "a b", "a\rb", "image = x", "/opt/\u{fc}ber"] {
        let written = with_image(image);
        assert_eq!(Record::parse(&written.to_text()), Ok(written));
    }
}

#[test]
fn an_image_that_does_not_fit_a_line_is_not_read_back() {
    for image in [" padded", "padded\u{3000}", "two\nlines"] {
        let written = with_image(image);
        assert_ne!(Record::parse(&written.to_text()), Ok(written));
    }
}

#[test]
fn a_line_can_be_padded_and_repeated() {
    let text = "\n  # note = 1\nno separator\n\u{a0}run\t=  +007 \r\ncompat=1\ncompat = 2\r\npid = 3\nimage = a\nimage = b = c";
    let read = Record::parse(text).expect("must parse");
    assert_eq!(
        read.identity,
        Identity::new(Run::from_raw(7), Compat::from_raw(2))
    );
    assert_eq!(
        read.tenant,
        Tenant {
            pid: 3,
            started_at: None,
            image: Some(PathBuf::from("b = c")),
        }
    );
}

#[test]
fn the_first_fault_is_the_one_reported() {
    assert_eq!(
        Record::parse("started_at = soon\nrun = x\n"),
        Err(MalformedRecord::NotANumber { key: "started_at" })
    );
    assert_eq!(
        Record::parse("compat = -1\nrun = x\n"),
        Err(MalformedRecord::NotANumber { key: "compat" })
    );
    assert_eq!(
        Record::parse("run = 1\npid = 1\n"),
        Err(MalformedRecord::Missing { key: "compat" })
    );
    assert_eq!(
        Record::parse("run = 1\ncompat = 1\n"),
        Err(MalformedRecord::Missing { key: "pid" })
    );
    assert_eq!(
        Record::parse(""),
        Err(MalformedRecord::Missing { key: "run" })
    );
}

#[test]
fn a_number_is_read_as_the_standard_library_reads_it() {
    let spellings = [
        "", "+", "-", "-0", "+0", "0", "00018", "++1", "1+", "1 2", "1_0", "0x1", "\u{663}",
        "18446744073709551615", "18446744073709551616", "99999999999999999999999",
        "00000000000000000000000001",
    ];
    for spelling in spellings {
        let parsed = Record::parse(&format!("run = {spelling}\ncompat = 1\npid = 1\n"));
        match spelling.parse::<u64>() {
            Ok(run) => assert_eq!(parsed.map(|read| read.identity.run.get()), Ok(run)),
            Err(_) => assert_eq!(parsed, Err(MalformedRecord::NotANumber { key: "run" })),
        }
    }
}

#[test]
fn white_space_is_what_the_standard_library_takes_for_it() {
    for code in 0..0x3100_u32 {
        let Some(c) = char::from_u32(code) else {
            continue;
        };
        if c == '\n' || c == '=' || c == '#' {
            continue;
        }
        let known = Record::parse(&format!("run{c}= 1\ncompat = 1\npid = 1\n")).is_ok();
        assert_eq!(known, c.is_whitespace(), "{code:#x}");
    }
}

#[test]
fn a_start_time_can_be_added() {
    let tenant = Tenant {
        pid: 1,
        started_at: None,
        image: Some(PathBuf::from("x")),
    };
    assert_eq!(
        tenant.started(9),
        Tenant {
            pid: 1,
            started_at: Some(9),
            image: Some(PathBuf::from("x")),
        }
    );
}

#[test]
fn faults_and_records_can_be_put_in_words() {
    assert_eq!(
        MalformedRecord::Missing { key: "run" }.describe(),
        "claim record has no `run`"
    );
    assert_eq!(
        MalformedRecord::NotANumber { key: "pid" }.describe(),
        "claim record's `pid` is not a number"
    );
    assert_eq!(record().describe(), "pid 4242, serving run 7");
}
