use feedwatch::rate_limit::RateLimiter;

#[test]
fn first_caller_is_admitted_immediately() {
    // No prior use: the first protected call starts at once, whenever the
    // limiter was built.
    let mut limiter = RateLimiter::new(100);
    let wait = limiter.acquire(1000);
    assert_eq!(wait, 0);
    limiter.release(1030);
    assert!(limiter.used);
    assert_eq!(limiter.last_use, 1030);
}

#[test]
fn fast_constructor_admits_first_caller_immediately_too() {
    let mut limiter = RateLimiter::new_fast(100);
    let wait = limiter.acquire(0);
    assert_eq!(wait, 0);
    limiter.release(0);
}

#[test]
fn second_caller_waits_out_the_interval() {
    let mut limiter = RateLimiter::new(100);
    limiter.acquire(1000);
    limiter.release(1030);
    let wait = limiter.acquire(1050);
    assert_eq!(wait, 80);
    limiter.release(1130);
}

#[test]
fn completions_stay_spaced_by_interval() {
    let mut limiter = RateLimiter::new(100);
    let mut completions = Vec::new();
    let mut now = 1000u64;
    for _ in 0..5 {
        let wait = limiter.acquire(now);
        let start = now + wait;
        // The protected call takes 30 units.
        let finish = start + 30;
        limiter.release(finish);
        completions.push(finish);
        // The next caller shows up immediately after.
        now = finish;
    }
    for pair in completions.windows(2) {
        assert!(pair[1] >= pair[0] + 100);
    }
}

#[test]
fn late_caller_is_not_delayed() {
    let mut limiter = RateLimiter::new(50);
    limiter.acquire(0);
    limiter.release(60);
    // More than the interval has passed since the last completion.
    let wait = limiter.acquire(200);
    assert_eq!(wait, 0);
    limiter.release(205);
    assert!(limiter.last_use >= 60 + 50);
}

#[test]
fn slow_call_pushes_the_next_admission() {
    let mut limiter = RateLimiter::new(100);
    limiter.acquire(1000);
    // The protected call itself runs long; completion is recorded at its
    // end, so the next interval counts from 1400, not 1000.
    limiter.release(1400);
    let wait = limiter.acquire(1410);
    assert_eq!(wait, 90);
}
