use iota_wallet_tui::wallet::{days_to_ymd, gas_section, gas_total};

fn is_leap(y: u64) -> bool {
    y % 4 == 0 && (y % 100 != 0 || y % 400 == 0)
}

fn days_in_month(y: u64, m: u64) -> u64 {
    match m {
        2 => {
            if is_leap(y) {
                29
            } else {
                28
            }
        }
        4 | 6 | 9 | 11 => 30,
        _ => 31,
    }
}

fn next_day((y, m, d): (u64, u64, u64)) -> (u64, u64, u64) {
    if d < days_in_month(y, m) {
        (y, m, d + 1)
    } else if m < 12 {
        (y, m + 1, 1)
    } else {
        (y + 1, 1, 1)
    }
}

#[test]
fn epoch_and_leap_day() {
    assert_eq!(days_to_ymd(0), (1970, 1, 1));
    assert_eq!(days_to_ymd(11016), (2000, 2, 29));
    assert_eq!(days_to_ymd(11017), (2000, 3, 1));
    assert_eq!(days_to_ymd(10957), (2000, 1, 1));
}

#[test]
fn consecutive_days_are_consecutive_dates() {
    // 1970 to past 2100 (not a leap year) and 2400 (a leap year)
    let mut prev = days_to_ymd(0);
    for day in 1..160_000u64 {
        let cur = days_to_ymd(day);
        assert!(cur.2 >= 1 && cur.2 <= days_in_month(cur.0, cur.1));
        assert_eq!(cur, next_day(prev), "day {}", day);
        prev = cur;
    }
}

#[test]
fn gas_total_counts_rebate_up_to_storage() {
    assert_eq!(gas_total(1000, 500, 200), 1300);
    assert_eq!(gas_total(1000, 500, 700), 1000);
    let s = gas_section(1000, 500, 700);
    assert_eq!(s.title, "Gas");
    let rows: Vec<(String, String)> = s.fields.iter().map(|f| (f.key.clone(), f.value.clone())).collect();
    assert_eq!(
        rows,
        vec![
            ("Total".to_string(), "1000 NANOS".to_string()),
            ("Computation".to_string(), "1000 NANOS".to_string()),
            ("Storage".to_string(), "500 NANOS".to_string()),
            ("Rebate".to_string(), "700 NANOS".to_string()),
        ]
    );
    assert!(s.fields.iter().all(|f| f.action.is_none()));
}
