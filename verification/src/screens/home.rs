//! The home screen: the banner is shown for a few seconds, then the first key press looks up
//! the player's account.
use vstd::prelude::*;
use std::time::Instant;
use russh::keys::PublicKey;
use crate::conf::Conf;
use crate::keys::KeyPress;
use crate::screen::Next;
use crate::text::{line_stats, longest, text_lines};

verus! {

/// A point in time of the monotonic clock.
#[verifier::external_type_specification]
#[verifier::external_body]
pub struct ExInstant(std::time::Instant);

/// Calls `Instant::now`. What it returns depends on the clock, so nothing is stated of it.
#[verifier::external_body]
fn now() -> Instant {
    Instant::now()
}

/// Calls `Instant::elapsed` on `since` and splits the duration into whole seconds and the
/// nanoseconds beyond them. The time depends on the clock, so all that is stated is what the
/// documentation of `Duration::subsec_nanos` promises: fewer than a billion nanoseconds.
#[verifier::external_body]
fn elapsed_since(since: &Instant) -> (res: (u64, u32))
    ensures
        res.1 < 1_000_000_000,
{
    let elapsed = since.elapsed();
    (elapsed.as_secs(), elapsed.subsec_nanos())
}

/// How long the banner stays before a key press moves on, in seconds.
pub const BANNER_SECONDS: u64 = 3;

/// Whether a time of `secs` seconds and `nanos` nanoseconds is past the banner's time.
pub open spec fn banner_time_over(secs: u64, nanos: u32) -> bool {
    secs > BANNER_SECONDS || (secs == BANNER_SECONDS && nanos > 0)
}

/// Whether a key press after `secs` seconds and `nanos` nanoseconds on the home screen moves
/// on: once more than three seconds have passed.
pub fn login_due(secs: u64, nanos: u32) -> (res: bool)
    ensures
        res == banner_time_over(secs, nanos),
{
    secs > BANNER_SECONDS || (secs == BANNER_SECONDS && nanos > 0)
}

/// What a key press on the home screen asks for after `secs` seconds and `nanos` nanoseconds
/// on it: the lookup of the player's account once the banner's time is over, nothing before.
pub fn key_response(secs: u64, nanos: u32) -> (res: Option<Next>)
    ensures
        banner_time_over(secs, nanos) ==> res matches Some(Next::LookUpUser),
        !banner_time_over(secs, nanos) ==> res is None,
{
    if login_due(secs, nanos) {
        Some(Next::LookUpUser)
    } else {
        None
    }
}

/// The screen that follows the lookup of the player's account: the flags where the account
/// was found, the registration screen where it was not.
pub fn after_login(found: bool) -> (res: Next)
    ensures
        found ==> res matches Next::Browse,
        !found ==> res matches Next::Register,
{
    if found {
        Next::Browse
    } else {
        Next::Register
    }
}

/// The home screen, and when it was first shown.
pub struct HomeScreen {
    conf: Conf,
    time: Instant,
    key: PublicKey,
}

impl HomeScreen {
    /// The configuration of the screen.
    pub closed spec fn config(&self) -> Conf {
        self.conf
    }

    /// The SSH key of the session's connection.
    pub closed spec fn connection_key(&self) -> PublicKey {
        self.key
    }

    /// The SSH key of the session's connection, for the server's database work.
    pub fn key(&self) -> (res: &PublicKey)
        ensures
            *res == self.connection_key(),
    {
        &self.key
    }

    /// The home screen, shown from now on.
    pub fn new(conf: Conf, key: PublicKey) -> (res: HomeScreen)
        ensures
            res.config() == conf,
            res.connection_key() == key,
    {
        HomeScreen { time: now(), conf, key }
    }

    /// Handles a key press: it reads how long the screen has been shown and answers as
    /// `key_response` says for that time, so once the banner's time is over the player's account
    /// is looked up, and before that nothing happens. Which of the two it is depends on the
    /// clock; the screen, its start time included, stays as it was.
    pub fn handle_input(&mut self, _key: KeyPress) -> (res: Option<Next>)
        ensures
            final(self).config() == old(self).config(),
            *final(self) == *old(self),
            final(self).connection_key() == old(self).connection_key(),
            res is None || res matches Some(Next::LookUpUser),
    {
        let (secs, nanos) = elapsed_since(&self.time);
        key_response(secs, nanos)
    }

    /// The size of the area that the banner needs: one more row than it has lines, and as many
    /// columns as its longest line has characters (both as the `u16` that the layout takes).
    pub fn banner_size(&self) -> (res: (u16, u16))
        requires
            (text_lines(self.config().banner@).len() as u16) < u16::MAX,
        ensures
            res.0 == (text_lines(self.config().banner@).len() as u16) + 1,
            res.1 == longest(text_lines(self.config().banner@)) as u16,
    {
        let (lines, widest) = line_stats(self.conf.banner.as_str());
        ((lines as u16) + 1, widest as u16)
    }
}

} // verus!
