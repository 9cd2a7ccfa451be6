use loaner::schedule::{amortize, monthly_payment_of, monthly_rate_of, pay, total_interests, Payment};
use loaner::{Loan, Operation};

fn ieee(op: Operation, a: u64, b: u64) -> u64 {
    let x = f64::from_bits(a);
    let y = f64::from_bits(b);
    let r = match op {
        Operation::Add => x + y,
        Operation::Sub => x - y,
        Operation::Mul => x * y,
        Operation::Div => x / y,
        Operation::Pow => x.powf(y),
        Operation::FromCount => a as f64,
    };
    r.to_bits()
}

fn loan(principal: f64, annual_rate: f64, months: usize) -> Loan {
    Loan::builder()
        .with_principal(principal.to_bits())
        .unwrap()
        .with_annual_rate(annual_rate.to_bits())
        .unwrap()
        .with_duration_in_months(months)
        .unwrap()
        .build(&ieee)
        .unwrap()
}

fn num(bits: u64) -> f64 {
    f64::from_bits(bits)
}

fn close(a: f64, b: f64, tolerance: f64) -> bool {
    (a - b).abs() <= tolerance
}

#[test]
fn valid_values_build_one_payment_per_month_in_order() {
    for months in [1usize, 2, 12, 60, 360] {
        for (principal, rate) in [(0.0, 0.0), (1200.0, 0.0), (10000.0, 0.06), (250000.0, 1.0)] {
            let l = loan(principal, rate, months);
            assert_eq!(l.principal, principal.to_bits());
            assert_eq!(l.annual_rate, rate.to_bits());
            assert_eq!(l.duration_in_months, months);
            assert_eq!(l.payments.len(), months);
            for (k, p) in l.payments.iter().enumerate() {
                assert_eq!(p.month_index, k);
            }
        }
    }
}

#[test]
fn each_month_starts_on_what_the_month_before_left() {
    let l = loan(10000.0, 0.06, 12);
    assert_eq!(l.payments[0].start_principal, 10000.0f64.to_bits());
    for k in 0..l.payments.len() - 1 {
        let left = num(l.payments[k].start_principal) - num(l.payments[k].principal_part);
        assert_eq!(l.payments[k + 1].start_principal, left.to_bits());
    }
}

#[test]
fn amount_is_principal_part_plus_interest() {
    let l = loan(10000.0, 0.06, 12);
    for p in l.payments.iter() {
        assert_eq!(p.amount, (num(p.principal_part) + num(p.interests_part)).to_bits());
        assert_eq!(
            p.interests_part,
            (num(l.annual_rate) / 12.0 * num(p.start_principal)).to_bits()
        );
    }
}

#[test]
fn total_is_the_sum_of_the_interests() {
    for (principal, rate, months) in [(10000.0, 0.06, 12usize), (1200.0, 0.0, 12), (5e5, 0.031, 240)] {
        let l = loan(principal, rate, months);
        let sum = l.payments.iter().fold(0.0f64, |i, p| i + num(p.interests_part));
        assert_eq!(l.total_paid_interests, sum.to_bits());
    }
}

#[test]
fn zero_rate_spreads_the_principal_evenly() {
    let l = loan(1200.0, 0.0, 12);
    assert_eq!(l.payments.len(), 12);
    for (k, p) in l.payments.iter().enumerate() {
        assert_eq!(num(p.interests_part), 0.0);
        assert_eq!(num(p.principal_part), 100.0);
        assert_eq!(num(p.amount), 100.0);
        assert_eq!(num(p.start_principal), 1200.0 - 100.0 * (k as f64));
    }
    assert_eq!(num(l.payments[11].start_principal), 100.0);
    let last = l.payments[11];
    assert_eq!(num(last.start_principal) - num(last.principal_part), 0.0);
    assert_eq!(num(l.total_paid_interests), 0.0);
}

#[test]
fn negative_zero_rate_is_a_zero_rate() {
    let l = loan(1200.0, -0.0, 12);
    for p in l.payments.iter() {
        assert_eq!(num(p.principal_part), 100.0);
        assert_eq!(num(p.interests_part), 0.0);
    }
}

#[test]
fn rate_that_rounds_to_nothing_per_month_is_a_zero_rate() {
    let l = loan(1200.0, 5e-324, 12);
    for p in l.payments.iter() {
        assert_eq!(num(p.principal_part), 100.0);
        assert_eq!(num(p.interests_part), 0.0);
    }
}

#[test]
fn zero_rate_payment_is_a_number() {
    let m = monthly_payment_of(&ieee, 1200.0f64.to_bits(), 0.0f64.to_bits(), 12);
    assert_eq!(num(m), 100.0);
    assert!(num(m).is_finite());
}

#[test]
fn standard_case_follows_the_annuity_formula() {
    let l = loan(10000.0, 0.06, 12);
    let i = 0.06f64 / 12.0;
    assert_eq!(monthly_rate_of(&ieee, 0.06f64.to_bits()), i.to_bits());
    assert!(close(i, 0.005, 1e-12));
    let g = (1.0 + i).powf(12.0);
    let expected = 10000.0 * (i * g / (g - 1.0));
    let m = monthly_payment_of(&ieee, 10000.0f64.to_bits(), 0.06f64.to_bits(), 12);
    assert_eq!(m, expected.to_bits());
    assert!(close(num(m), 860.66, 0.01));
    let first = l.payments[0];
    assert!(close(num(first.interests_part), 50.0, 1e-9));
    assert!(close(num(first.principal_part), 810.66, 0.01));
    assert!(close(num(first.amount), 860.66, 0.01));
    assert!(close(num(l.total_paid_interests), 12.0 * num(m) - 10000.0, 1e-6));
    assert!(close(num(l.total_paid_interests), 327.97, 0.01));
    let last = l.payments[11];
    assert!(close(num(last.start_principal) - num(last.principal_part), 0.0, 1e-6));
}

#[test]
fn single_month_pays_everything_off() {
    let l = loan(1000.0, 0.12, 1);
    assert_eq!(l.payments.len(), 1);
    let p = l.payments[0];
    assert_eq!(p.month_index, 0);
    assert_eq!(num(p.start_principal), 1000.0);
    assert!(close(num(p.interests_part), 10.0, 1e-9));
    assert!(close(num(p.amount), 1000.0 + num(p.interests_part), 1e-6));
    assert!(close(num(p.start_principal) - num(p.principal_part), 0.0, 1e-6));
    assert_eq!(l.total_paid_interests, (0.0 + num(p.interests_part)).to_bits());
}

#[test]
fn zero_principal_gives_zero_payments() {
    let l = loan(0.0, 0.06, 6);
    assert_eq!(l.payments.len(), 6);
    for p in l.payments.iter() {
        assert_eq!(num(p.start_principal), 0.0);
        assert_eq!(num(p.interests_part), 0.0);
        assert_eq!(num(p.principal_part), 0.0);
        assert_eq!(num(p.amount), 0.0);
    }
    assert_eq!(num(l.total_paid_interests), 0.0);
}

#[test]
fn building_twice_gives_the_same_loan() {
    let a = loan(10000.0, 0.06, 12);
    let b = loan(10000.0, 0.06, 12);
    assert_eq!(a, b);
    let c = loan(123456.78, 0.0425, 300);
    let d = loan(123456.78, 0.0425, 300);
    assert_eq!(c.payments, d.payments);
    assert_eq!(c.total_paid_interests, d.total_paid_interests);
}

#[test]
fn one_payment_splits_the_installment() {
    let p = pay(&ieee, 0.005f64.to_bits(), 860.0f64.to_bits(), 3, 10000.0f64.to_bits());
    assert_eq!(
        p,
        Payment {
            month_index: 3,
            start_principal: 10000.0f64.to_bits(),
            interests_part: 50.0f64.to_bits(),
            principal_part: 810.0f64.to_bits(),
            amount: 860.0f64.to_bits(),
        }
    );
}

#[test]
fn amortize_with_no_month_is_empty() {
    let v = amortize(&ieee, 100.0f64.to_bits(), 0.0f64.to_bits(), 10.0f64.to_bits(), 0);
    assert!(v.is_empty());
    assert_eq!(total_interests(&ieee, &v), 0.0f64.to_bits());
}

#[test]
fn amortize_takes_the_installment_off_each_month() {
    let v = amortize(&ieee, 100.0f64.to_bits(), 0.0f64.to_bits(), 25.0f64.to_bits(), 4);
    let starts: Vec<f64> = v.iter().map(|p| num(p.start_principal)).collect();
    assert_eq!(starts, vec![100.0, 75.0, 50.0, 25.0]);
    let months: Vec<usize> = v.iter().map(|p| p.month_index).collect();
    assert_eq!(months, vec![0, 1, 2, 3]);
}

#[test]
fn total_interests_adds_in_order() {
    let v = amortize(&ieee, 1000.0f64.to_bits(), 0.5f64.to_bits(), 600.0f64.to_bits(), 2);
    assert_eq!(num(v[0].interests_part), 500.0);
    assert_eq!(num(v[0].principal_part), 100.0);
    assert_eq!(num(v[1].start_principal), 900.0);
    assert_eq!(num(v[1].interests_part), 450.0);
    assert_eq!(num(total_interests(&ieee, &v)), 950.0);
}
