//! Settings of a connection.

use crate::random::random_u8;
use bytes::Bytes;
use std::sync::Arc;
use vstd::prelude::*;

verus! {

/// How many messages a listener handles in a row before it looks at the others.
pub const LISTENER_TASK_LOOP: usize = 1024;

/// How long a listener keeps the number of a closed conversation from being used again, in
/// seconds.
pub const LISTENER_CONV_TIMEOUT: u64 = 120;

/// A span of time: whole seconds, and nanoseconds below one second.
#[derive(Clone, Copy, Debug, PartialEq, Eq, Structural)]
pub struct Duration {
    pub secs: u64,
    pub nanos: u32,
}

impl Duration {
    /// The span in nanoseconds.
    pub open spec fn spec_as_nanos(self) -> int {
        self.secs * 1_000_000_000 + self.nanos
    }

    /// The whole milliseconds of the span.
    pub open spec fn spec_as_millis(self) -> int {
        self.spec_as_nanos() / 1_000_000
    }

    /// A span of whole seconds.
    pub fn from_secs(secs: u64) -> (span: Duration)
        ensures
            span == (Duration { secs, nanos: 0 }),
    {
        Duration { secs, nanos: 0 }
    }

    /// The whole seconds of the span.
    pub fn as_secs(&self) -> (secs: u64)
        ensures
            secs == self.secs,
    {
        self.secs
    }

    /// The span in nanoseconds.
    pub fn as_nanos(&self) -> (nanos: u128)
        ensures
            nanos == self.spec_as_nanos(),
    {
        self.secs as u128 * 1_000_000_000 + self.nanos as u128
    }

    /// The whole milliseconds of the span.
    pub fn as_millis(&self) -> (millis: u128)
        ensures
            millis == self.spec_as_millis(),
    {
        self.as_nanos() / 1_000_000
    }
}

/// How eagerly the engine sends.
#[derive(Clone, Copy, Debug, PartialEq, Eq, Structural)]
pub struct KcpNoDelayConfig {
    /// Enable nodelay
    pub nodelay: bool,
    /// Internal update interval (ms)
    pub interval: u32,
    /// ACK number to enable fast resend
    pub resend: u32,
    /// Disable congestion control
    pub nc: bool,
}

impl Default for KcpNoDelayConfig {
    fn default() -> (config: KcpNoDelayConfig)
        ensures
            config == (KcpNoDelayConfig { nodelay: false, interval: 100, resend: 0, nc: false }),
    {
        KcpNoDelayConfig { nodelay: false, interval: 100, resend: 0, nc: false }
    }
}

impl KcpNoDelayConfig {
    /// Get a fastest configuration
    ///
    /// 1. Enable NoDelay
    /// 2. Set ticking interval to be 10ms
    /// 3. Set fast resend to be 2
    /// 4. Disable congestion control
    pub fn fastest() -> (config: KcpNoDelayConfig)
        ensures
            config == (KcpNoDelayConfig { nodelay: true, interval: 10, resend: 2, nc: true }),
    {
        KcpNoDelayConfig { nodelay: true, interval: 10, resend: 2, nc: true }
    }

    /// Get a normal configuration
    ///
    /// 1. Disable NoDelay
    /// 2. Set ticking interval to be 40ms
    /// 3. Disable fast resend
    /// 4. Enable congestion control
    pub fn normal() -> (config: KcpNoDelayConfig)
        ensures
            config == (KcpNoDelayConfig { nodelay: false, interval: 40, resend: 0, nc: false }),
    {
        KcpNoDelayConfig { nodelay: false, interval: 40, resend: 0, nc: false }
    }
}

/// Kcp Config
#[derive(Debug)]
pub struct KcpConfig {
    /// Max Transmission Unit
    pub mtu: u32,
    /// nodelay
    pub nodelay: KcpNoDelayConfig,
    /// send window size
    pub snd_wnd: u32,
    /// recv window size
    pub rcv_wnd: u32,
    /// Stream mode
    pub stream: bool,
    /// Session key
    pub session_key: Bytes,
    /// Length of session ID
    pub session_id_len: usize,
    /// Session expire duration, default is 90 seconds
    pub session_expire: Duration,
    /// Connect timeout, default is 15 seconds
    pub connect_timeout: Duration,
    /// Shutdown timeout, default is 10 seconds
    pub shutdown_timeout: Duration,
    /// Half-close timeout. Default is 5 seconds; 0 to disable.
    pub half_close_timeout: Duration,
}

impl Default for KcpConfig {
    fn default() -> (config: KcpConfig)
        ensures
            config.mtu == 1400,
            config.nodelay == (KcpNoDelayConfig {
                nodelay: false,
                interval: 40,
                resend: 0,
                nc: false,
            }),
            config.snd_wnd == 32,
            config.rcv_wnd == 256,
            config.stream,
            crate::frame::content(config.session_key) == Seq::<u8>::empty(),
            config.session_id_len == 16,
            config.session_expire == (Duration { secs: 90, nanos: 0 }),
            config.connect_timeout == (Duration { secs: 15, nanos: 0 }),
            config.shutdown_timeout == (Duration { secs: 10, nanos: 0 }),
            config.half_close_timeout == (Duration { secs: 5, nanos: 0 }),
    {
        KcpConfig {
            mtu: 1400,
            nodelay: KcpNoDelayConfig::normal(),
            snd_wnd: 32,
            rcv_wnd: 256,
            stream: true,
            session_key: Bytes::new(),
            session_id_len: 16,
            session_expire: Duration::from_secs(90),
            connect_timeout: Duration::from_secs(15),
            shutdown_timeout: Duration::from_secs(10),
            half_close_timeout: Duration::from_secs(5),
        }
    }
}

impl Clone for KcpConfig {
    fn clone(&self) -> (copy: KcpConfig)
        ensures
            crate::frame::content(copy.session_key) == crate::frame::content(self.session_key),
            copy == (KcpConfig { session_key: copy.session_key, ..*self }),
    {
        KcpConfig {
            mtu: self.mtu,
            nodelay: self.nodelay,
            snd_wnd: self.snd_wnd,
            rcv_wnd: self.rcv_wnd,
            stream: self.stream,
            session_key: self.session_key.clone(),
            session_id_len: self.session_id_len,
            session_expire: self.session_expire,
            connect_timeout: self.connect_timeout,
            shutdown_timeout: self.shutdown_timeout,
            half_close_timeout: self.half_close_timeout,
        }
    }
}

impl KcpConfig {
    /// Draws a session ID of the configured length; each byte is random.
    pub fn random_session_id(&self) -> (id: Vec<u8>)
        ensures
            id@.len() == self.session_id_len,
    {
        let mut id: Vec<u8> = Vec::new();
        while id.len() < self.session_id_len
            invariant
                id.len() <= self.session_id_len,
            decreases self.session_id_len - id.len(),
        {
            id.push(random_u8());
        }
        id
    }
}

/// Calls `Arc::clone`: another handle to the same settings.
#[verifier::external_body]
pub(crate) fn share(config: &Arc<KcpConfig>) -> (handle: Arc<KcpConfig>)
    ensures
        handle == *config,
{
    config.clone()
}

/// A second has a thousand million nanoseconds and a thousand milliseconds; what is left of a
/// millisecond does not count.
pub proof fn law_parts_of_a_second(span: Duration, millis: int)
    ensures
        span.spec_as_nanos() == 1_000_000_000 * span.secs + span.nanos,
        span.spec_as_millis() == millis <==> millis * 1_000_000 <= 1_000_000_000 * span.secs
            + span.nanos < (millis + 1) * 1_000_000,
{
}

} // verus!
