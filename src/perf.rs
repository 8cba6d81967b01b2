//! Tuning presets for the transport, request counters, and connection
//! pool statistics.
use vstd::prelude::*;

verus! {

/// Transport tuning.
#[derive(Debug, Clone, Copy, PartialEq, Eq, Structural)]
pub struct PerformanceConfig {
    pub max_pool_size: usize,
    pub max_idle_per_host: usize,
    /// Disable Nagle's algorithm.
    pub tcp_nodelay: bool,
    pub http2_max_concurrent_streams: u32,
    /// Buffer size of batched statistics.
    pub stats_buffer_size: usize,
}

impl Default for PerformanceConfig {
    fn default() -> (r: PerformanceConfig)
        ensures
            r == (PerformanceConfig {
                max_pool_size: 10000,
                max_idle_per_host: 1000,
                tcp_nodelay: true,
                http2_max_concurrent_streams: 100,
                stats_buffer_size: 1000,
            }),
    {
        PerformanceConfig {
            max_pool_size: 10000,
            max_idle_per_host: 1000,
            tcp_nodelay: true,
            http2_max_concurrent_streams: 100,
            stats_buffer_size: 1000,
        }
    }
}

impl PerformanceConfig {
    pub fn high_performance() -> (r: PerformanceConfig)
        ensures
            r == (PerformanceConfig {
                max_pool_size: 50000,
                max_idle_per_host: 5000,
                tcp_nodelay: true,
                http2_max_concurrent_streams: 1000,
                stats_buffer_size: 5000,
            }),
    {
        PerformanceConfig {
            max_pool_size: 50000,
            max_idle_per_host: 5000,
            tcp_nodelay: true,
            http2_max_concurrent_streams: 1000,
            stats_buffer_size: 5000,
        }
    }

    /// The default preset.
    pub fn balanced() -> (r: PerformanceConfig)
        ensures
            r == (PerformanceConfig {
                max_pool_size: 10000,
                max_idle_per_host: 1000,
                tcp_nodelay: true,
                http2_max_concurrent_streams: 100,
                stats_buffer_size: 1000,
            }),
    {
        PerformanceConfig::default()
    }

    pub fn resource_saving() -> (r: PerformanceConfig)
        ensures
            r == (PerformanceConfig {
                max_pool_size: 1000,
                max_idle_per_host: 100,
                tcp_nodelay: true,
                http2_max_concurrent_streams: 10,
                stats_buffer_size: 100,
            }),
    {
        PerformanceConfig {
            max_pool_size: 1000,
            max_idle_per_host: 100,
            tcp_nodelay: true,
            http2_max_concurrent_streams: 10,
            stats_buffer_size: 100,
        }
    }
}

/// `a + b` wrapped around at `usize::MAX + 1`, as counters do.
pub open spec fn wrap_add(a: usize, b: usize) -> usize {
    if a + b > usize::MAX {
        (a + b - usize::MAX - 1) as usize
    } else {
        (a + b) as usize
    }
}

/// Running counters of requests, bytes and response time. Every counter
/// wraps around on overflow.
#[derive(Debug, Clone, Copy, PartialEq, Eq, Structural)]
pub struct PerformanceMetrics {
    pub total_requests: usize,
    pub successful_requests: usize,
    pub failed_requests: usize,
    pub total_bytes_sent: usize,
    pub total_bytes_received: usize,
    /// Sum of response times in nanoseconds.
    pub total_response_time_ns: usize,
}

/// A copy of the counters at one moment.
#[derive(Debug, Clone, Copy, PartialEq, Eq, Structural)]
pub struct MetricsSnapshot {
    pub total_requests: usize,
    pub successful_requests: usize,
    pub failed_requests: usize,
    pub total_bytes_sent: usize,
    pub total_bytes_received: usize,
    pub total_response_time_ns: usize,
}

impl Default for PerformanceMetrics {
    fn default() -> (r: PerformanceMetrics)
        ensures
            r == (PerformanceMetrics {
                total_requests: 0,
                successful_requests: 0,
                failed_requests: 0,
                total_bytes_sent: 0,
                total_bytes_received: 0,
                total_response_time_ns: 0,
            }),
    {
        PerformanceMetrics {
            total_requests: 0,
            successful_requests: 0,
            failed_requests: 0,
            total_bytes_sent: 0,
            total_bytes_received: 0,
            total_response_time_ns: 0,
        }
    }
}

impl PerformanceMetrics {
    /// Counts one request, as a success or a failure, with its bytes and
    /// response time.
    pub fn increment_request(&mut self, success: bool, bytes_sent: usize, bytes_received: usize, response_time_ns: u64)
        ensures
            final(self).total_requests == wrap_add(old(self).total_requests, 1),
            final(self).successful_requests == if success {
                wrap_add(old(self).successful_requests, 1)
            } else {
                old(self).successful_requests
            },
            final(self).failed_requests == if success {
                old(self).failed_requests
            } else {
                wrap_add(old(self).failed_requests, 1)
            },
            final(self).total_bytes_sent == wrap_add(old(self).total_bytes_sent, bytes_sent),
            final(self).total_bytes_received == wrap_add(old(self).total_bytes_received, bytes_received),
            final(self).total_response_time_ns == wrap_add(old(self).total_response_time_ns, response_time_ns as usize),
    {
        self.total_requests = self.total_requests.wrapping_add(1);
        if success {
            self.successful_requests = self.successful_requests.wrapping_add(1);
        } else {
            self.failed_requests = self.failed_requests.wrapping_add(1);
        }
        self.total_bytes_sent = self.total_bytes_sent.wrapping_add(bytes_sent);
        self.total_bytes_received = self.total_bytes_received.wrapping_add(bytes_received);
        self.total_response_time_ns = self.total_response_time_ns.wrapping_add(response_time_ns as usize);
    }

    /// Mean response time in nanoseconds, rounded down; zero with no
    /// requests.
    pub fn average_response_time(&self) -> (r: u64)
        ensures
            r == if self.total_requests == 0 {
                0
            } else {
                (self.total_response_time_ns as u64) / (self.total_requests as u64)
            },
    {
        if self.total_requests > 0 {
            (self.total_response_time_ns as u64) / (self.total_requests as u64)
        } else {
            0
        }
    }

    /// Sets every counter back to zero.
    pub fn reset(&mut self)
        ensures
            *final(self) == PerformanceMetrics::default_spec(),
    {
        self.total_requests = 0;
        self.successful_requests = 0;
        self.failed_requests = 0;
        self.total_bytes_sent = 0;
        self.total_bytes_received = 0;
        self.total_response_time_ns = 0;
    }

    pub open spec fn default_spec() -> PerformanceMetrics {
        PerformanceMetrics {
            total_requests: 0,
            successful_requests: 0,
            failed_requests: 0,
            total_bytes_sent: 0,
            total_bytes_received: 0,
            total_response_time_ns: 0,
        }
    }

    pub fn snapshot(&self) -> (r: MetricsSnapshot)
        ensures
            r == (MetricsSnapshot {
                total_requests: self.total_requests,
                successful_requests: self.successful_requests,
                failed_requests: self.failed_requests,
                total_bytes_sent: self.total_bytes_sent,
                total_bytes_received: self.total_bytes_received,
                total_response_time_ns: self.total_response_time_ns,
            }),
    {
        MetricsSnapshot {
            total_requests: self.total_requests,
            successful_requests: self.successful_requests,
            failed_requests: self.failed_requests,
            total_bytes_sent: self.total_bytes_sent,
            total_bytes_received: self.total_bytes_received,
            total_response_time_ns: self.total_response_time_ns,
        }
    }
}

impl MetricsSnapshot {
    /// Mean response time in nanoseconds, rounded down; zero with no
    /// requests.
    pub fn average_response_time(&self) -> (r: u64)
        ensures
            r == if self.total_requests == 0 {
                0
            } else {
                (self.total_response_time_ns as u64) / (self.total_requests as u64)
            },
    {
        if self.total_requests > 0 {
            (self.total_response_time_ns as u64) / (self.total_requests as u64)
        } else {
            0
        }
    }
}

/// Connection pool statistics.
#[derive(Debug, Clone, Copy, PartialEq, Eq, Structural)]
pub struct ConnectionPoolStats {
    pub active_connections: usize,
    pub idle_connections: usize,
    pub max_connections: usize,
    pub connection_failures: usize,
}

impl Default for ConnectionPoolStats {
    fn default() -> (r: ConnectionPoolStats)
        ensures
            r == (ConnectionPoolStats {
                active_connections: 0,
                idle_connections: 0,
                max_connections: 0,
                connection_failures: 0,
            }),
    {
        ConnectionPoolStats { active_connections: 0, idle_connections: 0, max_connections: 0, connection_failures: 0 }
    }
}

/// The transport's connection pool, as far as it can be observed: the
/// transport exposes no statistics, so these report an empty pool.
pub struct ConnectionPoolManager;

impl ConnectionPoolManager {
    pub fn get_stats() -> (r: ConnectionPoolStats)
        ensures
            r == (ConnectionPoolStats {
                active_connections: 0,
                idle_connections: 0,
                max_connections: 0,
                connection_failures: 0,
            }),
    {
        ConnectionPoolStats::default()
    }

    /// The pool is always usable: the transport reopens connections.
    pub fn health_check() -> (r: bool)
        ensures
            r,
    {
        true
    }

    /// Idle connections are closed by the transport itself.
    pub fn cleanup_idle_connections() {
    }
}

/// Builds transport clients from presets; the clients are made by the
/// application, which holds the transport.
pub struct ReqwestClientFactory;

} // verus!
