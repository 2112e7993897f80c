use vstd::prelude::*;

verus! {

/// Number of browser identities that requests rotate through.
pub const USER_AGENT_COUNT: u128 = 5;

/// The fixed pool of `User-Agent` header values.
pub open spec fn user_agent_pool() -> Seq<Seq<char>> {
    seq![
        "Mozilla/5.0 (Windows NT 10.0; Win64; x64) AppleWebKit/537.36 (KHTML, like Gecko) Chrome/120.0.0.0 Safari/537.36"@,
        "Mozilla/5.0 (Macintosh; Intel Mac OS X 10_15_7) AppleWebKit/537.36 (KHTML, like Gecko) Chrome/120.0.0.0 Safari/537.36"@,
        "Mozilla/5.0 (Windows NT 10.0; Win64; x64; rv:121.0) Gecko/20100101 Firefox/121.0"@,
        "Mozilla/5.0 (Macintosh; Intel Mac OS X 10_15_7) AppleWebKit/605.1.15 (KHTML, like Gecko) Version/17.1 Safari/605.1.15"@,
        "Mozilla/5.0 (X11; Linux x86_64) AppleWebKit/537.36 (KHTML, like Gecko) Chrome/120.0.0.0 Safari/537.36"@,
    ]
}

/// Picks the pool entry that `seed` selects: entry `seed % 5`.
pub fn user_agent_for(seed: u128) -> (r: &'static str)
    ensures
        r@ == user_agent_pool()[(seed % USER_AGENT_COUNT) as int],
{
    let i = seed % USER_AGENT_COUNT;
    if i == 0 {
        "Mozilla/5.0 (Windows NT 10.0; Win64; x64) AppleWebKit/537.36 (KHTML, like Gecko) Chrome/120.0.0.0 Safari/537.36"
    } else if i == 1 {
        "Mozilla/5.0 (Macintosh; Intel Mac OS X 10_15_7) AppleWebKit/537.36 (KHTML, like Gecko) Chrome/120.0.0.0 Safari/537.36"
    } else if i == 2 {
        "Mozilla/5.0 (Windows NT 10.0; Win64; x64; rv:121.0) Gecko/20100101 Firefox/121.0"
    } else if i == 3 {
        "Mozilla/5.0 (Macintosh; Intel Mac OS X 10_15_7) AppleWebKit/605.1.15 (KHTML, like Gecko) Version/17.1 Safari/605.1.15"
    } else {
        "Mozilla/5.0 (X11; Linux x86_64) AppleWebKit/537.36 (KHTML, like Gecko) Chrome/120.0.0.0 Safari/537.36"
    }
}

#[verifier::external_type_specification]
#[verifier::external_body]
pub struct ExSystemTime(std::time::SystemTime);

/// Relies on `std::time::SystemTime::now`: the current wall-clock time.
/// Nothing is promised of the value.
#[verifier::external_body]
fn system_now() -> (r: std::time::SystemTime) {
    std::time::SystemTime::now()
}

/// Relies on `std::time::SystemTime::duration_since(UNIX_EPOCH)`: the time
/// elapsed since the Unix epoch, `None` where `t` lies before it.
#[verifier::external_body]
fn since_epoch(t: &std::time::SystemTime) -> (r: Option<std::time::Duration>) {
    t.duration_since(std::time::UNIX_EPOCH).ok()
}

/// Relies on `std::time::Duration::as_nanos`: the duration in whole
/// nanoseconds.
#[verifier::external_body]
fn duration_nanos(d: &std::time::Duration) -> (r: u128) {
    d.as_nanos()
}

/// Nanoseconds since the Unix epoch, or 0 where the clock reads earlier.
fn clock_nanos() -> u128 {
    let now = system_now();
    match since_epoch(&now) {
        Some(d) => duration_nanos(&d),
        None => 0,
    }
}

/// A pool entry chosen from the clock, so that successive requests do not
/// all present the same browser identity.
pub fn get_random_user_agent() -> (r: &'static str)
    ensures
        exists|i: int| 0 <= i < user_agent_pool().len() && r@ == user_agent_pool()[i],
{
    let seed = clock_nanos();
    let r = user_agent_for(seed);
    assert(((seed % USER_AGENT_COUNT) as int) < user_agent_pool().len());
    r
}

} // verus!
