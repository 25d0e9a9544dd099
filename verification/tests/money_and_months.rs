use finance_tracker::clock::{add_record_page_today, averaging_days_today, dashboard_month};
use finance_tracker::months::readable_month_name;
use finance_tracker::dashboard::summarize_month;
use finance_tracker::models::TransactionDetail;
use finance_tracker::months::{averaging_day_count, month_key, selected_month};
use finance_tracker::pages::{dashboard_page, edit_record_page};
use finance_tracker::models::Transaction;
use finance_tracker::text::cents_to_text;

fn detail(id: i64, amount: i64, date: &str, name: &str, c_type: &str) -> TransactionDetail {
    TransactionDetail {
        id,
        amount,
        date: date.to_string(),
        description: format!("item {}", id),
        category_name: name.to_string(),
        c_type: c_type.to_string(),
    }
}

#[test]
fn formatted_amount_has_two_decimals() {
    assert_eq!(detail(1, 1234, "2024-03-01", "Food", "EXPENSE").formatted_amount(), "12.34");
    assert_eq!(detail(1, 0, "2024-03-01", "Food", "EXPENSE").formatted_amount(), "0.00");
    assert_eq!(detail(1, 100, "2024-03-01", "Food", "EXPENSE").formatted_amount(), "1.00");
    assert_eq!(detail(1, 7, "2024-03-01", "Food", "EXPENSE").formatted_amount(), "0.07");
    assert_eq!(detail(1, -5, "2024-03-01", "Food", "EXPENSE").formatted_amount(), "-0.05");
    assert_eq!(detail(1, -123456, "2024-03-01", "Food", "EXPENSE").formatted_amount(), "-1234.56");
}

#[test]
fn cents_text_matches_two_decimal_float_rendering() {
    for c in [-100001i64, -99, -10, 0, 1, 9, 10, 99, 101, 250075, 987654321] {
        assert_eq!(cents_to_text(c), format!("{:.2}", (c as f64) / 100.0));
    }
}

#[test]
fn cents_text_matches_float_rendering_up_to_the_exact_bound() {
    let bound: i64 = 7036874417766400;
    for c in [bound - 1, -(bound - 1), bound - 7, 4503599627370495, 1125899906842623, 999999999999999, -123456789012345] {
        assert_eq!(cents_to_text(c), format!("{:.2}", (c as f64) / 100.0));
    }
    let mut c: i64 = 1;
    while c < bound {
        assert_eq!(cents_to_text(c + 3), format!("{:.2}", ((c + 3) as f64) / 100.0));
        c = c * 3 + 1;
    }
}

#[test]
fn month_summary_groups_and_totals() {
    let records = vec![
        detail(1, 5000, "2024-03-20", "Salary", "INCOME"),
        detail(2, 1250, "2024-03-19", "Food", "EXPENSE"),
        detail(3, 300, "2024-03-18", "Bonus", "INCOME"),
        detail(4, 750, "2024-03-10", "Food", "EXPENSE"),
        detail(5, 999, "2024-03-05", "Rent", "EXPENSE"),
        detail(6, 100, "2024-03-04", "Food", "INCOME"),
    ];
    let s = summarize_month(records).expect("no overflow");
    assert_eq!(s.income_cents, 5400);
    assert_eq!(s.expense_cents, 2999);
    assert_eq!(s.net_cents, 2401);
    let keys: Vec<(String, String)> =
        s.groups.iter().map(|g| (g.category_name.clone(), g.category_type.clone())).collect();
    assert_eq!(
        keys,
        vec![
            ("Bonus".to_string(), "INCOME".to_string()),
            ("Food".to_string(), "EXPENSE".to_string()),
            ("Food".to_string(), "INCOME".to_string()),
            ("Rent".to_string(), "EXPENSE".to_string()),
            ("Salary".to_string(), "INCOME".to_string()),
        ]
    );
    let food = &s.groups[1];
    assert_eq!(food.total, "20.00");
    let ids: Vec<i64> = food.transactions.iter().map(|t| t.id).collect();
    assert_eq!(ids, vec![2, 4]);
    assert_eq!(s.groups[3].total, "9.99");
    // The group totals add up to the month's totals.
    let income_groups: i64 = s
        .groups
        .iter()
        .filter(|g| g.category_type == "INCOME")
        .map(|g| g.transactions.iter().map(|t| t.amount).sum::<i64>())
        .sum();
    let expense_groups: i64 = s
        .groups
        .iter()
        .filter(|g| g.category_type != "INCOME")
        .map(|g| g.transactions.iter().map(|t| t.amount).sum::<i64>())
        .sum();
    assert_eq!(income_groups, s.income_cents);
    assert_eq!(expense_groups, s.expense_cents);
}

#[test]
fn month_summary_orders_by_code_point() {
    let records = vec![
        detail(1, 1, "2024-03-20", "bar", "EXPENSE"),
        detail(2, 2, "2024-03-20", "Zed", "EXPENSE"),
        detail(3, 3, "2024-03-20", "Ärger", "EXPENSE"),
        detail(4, 4, "2024-03-20", "", "EXPENSE"),
    ];
    let s = summarize_month(records).expect("no overflow");
    let names: Vec<&str> = s.groups.iter().map(|g| g.category_name.as_str()).collect();
    let mut expected = vec!["bar", "Zed", "Ärger", ""];
    expected.sort();
    assert_eq!(names, expected);
}

#[test]
fn empty_month_is_all_zero() {
    let s = summarize_month(Vec::new()).expect("no overflow");
    let page = dashboard_page("2024-03".to_string(), s, "0.00".to_string());
    assert!(page.logged_in);
    assert_eq!(page.total_income, "0.00");
    assert_eq!(page.total_expense, "0.00");
    assert_eq!(page.net_balance, "0.00");
    assert!(page.groups.is_empty());
}

#[test]
fn negative_balance_is_shown_with_sign() {
    let s = summarize_month(vec![detail(1, 250, "2024-01-02", "Fun", "EXPENSE")]).expect("no overflow");
    let page = dashboard_page("2024-01".to_string(), s, "0.08".to_string());
    assert_eq!(page.net_balance, "-2.50");
    assert_eq!(page.total_expense, "2.50");
    assert_eq!(page.avg_expense, "0.08");
}

#[test]
fn month_names() {
    assert_eq!(month_key(2024, 3), "2024-03");
    assert_eq!(month_key(987, 11), "0987-11");
    assert_eq!(month_key(-1, 1), "-001-01");
    assert_eq!(month_key(12345, 12), "12345-12");
    assert_eq!(month_key(2024, 3), format!("{:04}-{:02}", 2024, 3));
    assert_eq!(month_key(-1, 1), format!("{:04}-{:02}", -1, 1));
}

#[test]
fn selected_month_defaults_to_now() {
    assert_eq!(selected_month(None, 2025, 7), "2025-07");
    assert_eq!(selected_month(Some("2023-01".to_string()), 2025, 7), "2023-01");
}

#[test]
fn averaging_days() {
    assert_eq!(averaging_day_count("2025-07", 2025, 7, 14), 14);
    assert_eq!(averaging_day_count("2024-02", 2025, 7, 14), 29);
    assert_eq!(averaging_day_count("2023-02", 2025, 7, 14), 28);
    assert_eq!(averaging_day_count("2000-02", 2025, 7, 14), 29);
    assert_eq!(averaging_day_count("1900-02", 2025, 7, 14), 28);
    assert_eq!(averaging_day_count("2023-04", 2025, 7, 14), 30);
    assert_eq!(averaging_day_count("2023-12", 2025, 7, 14), 31);
    assert_eq!(averaging_day_count("2023-13", 2025, 7, 14), 31);
    assert_eq!(averaging_day_count("2023-2", 2025, 7, 14), 31);
    assert_eq!(averaging_day_count("+202-02", 2025, 7, 14), 28);
    assert_eq!(averaging_day_count("2024x02", 2025, 7, 14), 29);
}

#[test]
fn edit_page_shows_amount_in_units() {
    let t = Transaction {
        id: 9,
        amount: 4205,
        date: "2024-05-06".to_string(),
        description: "Books".to_string(),
        category_id: 2,
    };
    let page = edit_record_page(t, Vec::new());
    assert_eq!(page.formatted_amount, "42.05");
    assert_eq!(page.transaction.id, 9);
    assert!(page.logged_in);
}

#[test]
fn month_summary_overflow_has_no_summary() {
    let records = vec![
        detail(1, i64::MAX, "2024-03-20", "A", "INCOME"),
        detail(2, 1, "2024-03-20", "B", "INCOME"),
    ];
    assert!(summarize_month(records).is_none());
    let records = vec![
        detail(1, i64::MAX, "2024-03-20", "A", "INCOME"),
        detail(2, -1, "2024-03-20", "B", "EXPENSE"),
    ];
    assert!(summarize_month(records).is_none());
    let records = vec![
        detail(1, i64::MAX, "2024-03-20", "A", "INCOME"),
        detail(2, 1, "2024-03-20", "A", "EXPENSE"),
    ];
    assert!(summarize_month(records).is_some());
    let records = vec![
        detail(1, i64::MAX, "2024-03-20", "A", "INCOME"),
        detail(2, -5, "2024-03-20", "B", "INCOME"),
        detail(3, 5, "2024-03-20", "B", "INCOME"),
    ];
    let s = summarize_month(records).expect("in range");
    assert_eq!(s.income_cents, i64::MAX);
}

#[test]
fn clock_dependent_month_choices() {
    assert_eq!(dashboard_month(Some("2022-10".to_string())), "2022-10");
    let now = dashboard_month(None);
    assert_eq!(now.len(), 7);
    assert_eq!(&now[4..5], "-");
    let days = averaging_days_today(&now).expect("current month");
    assert!((1..=31).contains(&days));
    assert_eq!(averaging_days_today("2023-02"), Some(28));
    assert_eq!(averaging_days_today("2024-02"), Some(29));
    assert_eq!(averaging_days_today("24-02"), None);
    assert_eq!(averaging_days_today("abcd-02"), None);
    let page = add_record_page_today(Vec::new());
    assert!(page.logged_in);
    assert_eq!(page.today.len(), 10);
    assert!(page.today.starts_with(&now));
}

#[test]
fn readable_month_names() {
    assert!(readable_month_name("2024-02"));
    assert!(readable_month_name("+202-02"));
    assert!(readable_month_name("2024x"));
    assert!(!readable_month_name("2024"));
    assert!(!readable_month_name("-202-02"));
    assert!(!readable_month_name("2024é02"));
}

#[test]
fn month_names_read_back() {
    for (y, m, days) in [(2024, 2, 29), (2023, 2, 28), (1, 4, 30), (9999, 12, 31), (0, 2, 29)] {
        let name = month_key(y, m);
        assert!(readable_month_name(&name));
        assert_eq!(averaging_day_count(&name, 2030, 1, 5), days);
    }
}

fn read_cents(text: &str) -> i128 {
    let (neg, body) = match text.strip_prefix('-') {
        Some(rest) => (true, rest),
        None => (false, text),
    };
    let (units, frac) = body.split_once('.').unwrap();
    let v = units.parse::<i128>().unwrap() * 100 + frac.parse::<i128>().unwrap();
    if neg { -v } else { v }
}

fn has_money_shape(text: &str) -> bool {
    let body = text.strip_prefix('-').unwrap_or(text);
    match body.split_once('.') {
        Some((units, frac)) => {
            !units.is_empty()
                && units.chars().all(|c| c.is_ascii_digit())
                && (units == "0" || !units.starts_with('0'))
                && frac.len() == 2
                && frac.chars().all(|c| c.is_ascii_digit())
        }
        None => false,
    }
}

#[test]
fn formatted_amount_keeps_shape_and_sign_for_every_amount() {
    for amount in [i64::MIN, i64::MIN + 1, -7036874417766400, -1, 0, 1, 99, 7036874417766400, i64::MAX] {
        let text = detail(1, amount, "2024-01-01", "x", "EXPENSE").formatted_amount();
        assert!(has_money_shape(&text), "{}", text);
        assert_eq!(text.starts_with('-'), amount < 0);
    }
}

#[test]
fn money_text_reads_back_and_rises_with_the_amount() {
    let amounts = [-1_000_000_000_000_000i64, -123456, -100, -5, 0, 7, 100, 123456, 1_000_000_000_000_000];
    let mut previous: Option<i128> = None;
    for amount in amounts {
        let text = detail(1, amount, "2024-01-01", "x", "INCOME").formatted_amount();
        let back = read_cents(&text);
        assert_eq!(back, amount as i128);
        if let Some(p) = previous {
            assert!(p <= back);
        }
        previous = Some(back);
    }
}
