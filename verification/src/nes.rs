//! Worker configuration vocabulary: the key/value items a worker's query
//! processing settings and its TCP sources turn into.  The items feed the
//! guest configuration renderer outside this crate; here their exact keys,
//! values and order are fixed.

use vstd::prelude::*;
use vstd::string::StringExecFns;
use crate::addr::dec_str;
use crate::addr::u64_to_dec_string;

verus! {

/// One key/value settings item.
#[derive(Debug)]
pub struct ConfigItem {
    pub key: String,
    pub value: String,
}

/// The key/value pairs of a sequence of items.
pub open spec fn items_view(config: Seq<ConfigItem>) -> Seq<(Seq<char>, Seq<char>)> {
    config.map_values(|c: ConfigItem| (c.key@, c.value@))
}

/// A worker's query processing settings, rendered to items.
#[derive(Debug)]
pub struct WorkerQueryProcessingConfigurationInternal {
    pub config: Vec<ConfigItem>,
}

/// A worker's query processing settings: each absent setting is left to the
/// worker's own default.
#[derive(Debug, Clone, Copy, PartialEq, Eq, Structural)]
pub struct WorkerQueryProcessingConfiguration {
    pub number_of_worker_threads: Option<u64>,
    pub total_number_of_buffers: Option<u64>,
    pub number_of_source_buffers: Option<u64>,
    pub number_of_buffers_per_thread: Option<u64>,
    pub buffer_size: Option<u64>,
}

impl WorkerQueryProcessingConfiguration {
    /// The settings with nothing set.
    pub fn empty() -> (r: WorkerQueryProcessingConfiguration)
        ensures
            r.number_of_worker_threads is None,
            r.total_number_of_buffers is None,
            r.number_of_source_buffers is None,
            r.number_of_buffers_per_thread is None,
            r.buffer_size is None,
    {
        WorkerQueryProcessingConfiguration {
            number_of_worker_threads: None,
            total_number_of_buffers: None,
            number_of_source_buffers: None,
            number_of_buffers_per_thread: None,
            buffer_size: None,
        }
    }

    /// The items the settings render to, in their fixed order; an absent
    /// setting yields no item.
    pub open spec fn spec_config_items(self) -> Seq<(Seq<char>, Seq<char>)> {
        (if self.number_of_worker_threads is Some {
            seq![("numWorkerThreads"@, dec_str(self.number_of_worker_threads.unwrap() as nat))]
        } else {
            Seq::empty()
        }) + (if self.buffer_size is Some {
            seq![("bufferSizeInBytes"@, dec_str(self.buffer_size.unwrap() as nat))]
        } else {
            Seq::empty()
        }) + (if self.number_of_buffers_per_thread is Some {
            seq![
                (
                    "numberOfBuffersPerWorker"@,
                    dec_str(self.number_of_buffers_per_thread.unwrap() as nat),
                ),
            ]
        } else {
            Seq::empty()
        }) + (if self.total_number_of_buffers is Some {
            seq![
                (
                    "numberOfBuffersInGlobalBufferManager"@,
                    dec_str(self.total_number_of_buffers.unwrap() as nat),
                ),
            ]
        } else {
            Seq::empty()
        }) + (if self.number_of_source_buffers is Some {
            seq![
                (
                    "numberOfBuffersInSourceLocalBufferPool"@,
                    dec_str(self.number_of_source_buffers.unwrap() as nat),
                ),
            ]
        } else {
            Seq::empty()
        })
    }

    /// Renders the settings to their items.
    pub fn into_internal(self) -> (r: WorkerQueryProcessingConfigurationInternal)
        ensures
            items_view(r.config@) == self.spec_config_items(),
    {
        let mut config: Vec<ConfigItem> = Vec::new();
        let ghost mut acc = Seq::<(Seq<char>, Seq<char>)>::empty();
        proof {
            assert(items_view(config@) =~= acc);
        }
        if let Some(v) = self.number_of_worker_threads {
            config.push(ConfigItem { key: "numWorkerThreads".to_owned(), value: u64_to_dec_string(v) });
            proof {
                acc = acc.push(("numWorkerThreads"@, dec_str(v as nat)));
                assert(items_view(config@) =~= acc);
            }
        }
        if let Some(v) = self.buffer_size {
            config.push(
                ConfigItem { key: "bufferSizeInBytes".to_owned(), value: u64_to_dec_string(v) },
            );
            proof {
                acc = acc.push(("bufferSizeInBytes"@, dec_str(v as nat)));
                assert(items_view(config@) =~= acc);
            }
        }
        if let Some(v) = self.number_of_buffers_per_thread {
            config.push(
                ConfigItem { key: "numberOfBuffersPerWorker".to_owned(), value: u64_to_dec_string(v) },
            );
            proof {
                acc = acc.push(("numberOfBuffersPerWorker"@, dec_str(v as nat)));
                assert(items_view(config@) =~= acc);
            }
        }
        if let Some(v) = self.total_number_of_buffers {
            config.push(
                ConfigItem {
                    key: "numberOfBuffersInGlobalBufferManager".to_owned(),
                    value: u64_to_dec_string(v),
                },
            );
            proof {
                acc = acc.push(("numberOfBuffersInGlobalBufferManager"@, dec_str(v as nat)));
                assert(items_view(config@) =~= acc);
            }
        }
        if let Some(v) = self.number_of_source_buffers {
            config.push(
                ConfigItem {
                    key: "numberOfBuffersInSourceLocalBufferPool".to_owned(),
                    value: u64_to_dec_string(v),
                },
            );
            proof {
                acc = acc.push(("numberOfBuffersInSourceLocalBufferPool"@, dec_str(v as nat)));
                assert(items_view(config@) =~= acc);
            }
        }
        proof {
            assert(acc =~= self.spec_config_items());
        }
        WorkerQueryProcessingConfigurationInternal { config }
    }
}

/// A chainable builder for the query processing settings.
#[derive(Debug, Clone, Copy, PartialEq, Eq, Structural)]
pub struct WorkerQueryProcessingConfigurationBuilder {
    pub settings: WorkerQueryProcessingConfiguration,
}

impl WorkerQueryProcessingConfigurationBuilder {
    /// A builder with nothing set.
    pub fn new() -> (r: WorkerQueryProcessingConfigurationBuilder)
        ensures
            r.settings.number_of_worker_threads is None,
            r.settings.total_number_of_buffers is None,
            r.settings.number_of_source_buffers is None,
            r.settings.number_of_buffers_per_thread is None,
            r.settings.buffer_size is None,
    {
        WorkerQueryProcessingConfigurationBuilder {
            settings: WorkerQueryProcessingConfiguration::empty(),
        }
    }

    /// Sets the number of worker threads.
    pub fn number_of_worker_threads(self, v: u64) -> (r: Self)
        ensures
            r.settings == (WorkerQueryProcessingConfiguration {
                number_of_worker_threads: Some(v),
                ..self.settings
            }),
    {
        WorkerQueryProcessingConfigurationBuilder {
            settings: WorkerQueryProcessingConfiguration {
                number_of_worker_threads: Some(v),
                ..self.settings
            },
        }
    }

    /// Sets the total number of buffers.
    pub fn total_number_of_buffers(self, v: u64) -> (r: Self)
        ensures
            r.settings == (WorkerQueryProcessingConfiguration {
                total_number_of_buffers: Some(v),
                ..self.settings
            }),
    {
        WorkerQueryProcessingConfigurationBuilder {
            settings: WorkerQueryProcessingConfiguration {
                total_number_of_buffers: Some(v),
                ..self.settings
            },
        }
    }

    /// Sets the number of buffers of each source's local pool.
    pub fn number_of_source_buffers(self, v: u64) -> (r: Self)
        ensures
            r.settings == (WorkerQueryProcessingConfiguration {
                number_of_source_buffers: Some(v),
                ..self.settings
            }),
    {
        WorkerQueryProcessingConfigurationBuilder {
            settings: WorkerQueryProcessingConfiguration {
                number_of_source_buffers: Some(v),
                ..self.settings
            },
        }
    }

    /// Sets the number of buffers per worker thread.
    pub fn number_of_buffers_per_thread(self, v: u64) -> (r: Self)
        ensures
            r.settings == (WorkerQueryProcessingConfiguration {
                number_of_buffers_per_thread: Some(v),
                ..self.settings
            }),
    {
        WorkerQueryProcessingConfigurationBuilder {
            settings: WorkerQueryProcessingConfiguration {
                number_of_buffers_per_thread: Some(v),
                ..self.settings
            },
        }
    }

    /// Sets the buffer size in bytes.
    pub fn buffer_size(self, v: u64) -> (r: Self)
        ensures
            r.settings == (WorkerQueryProcessingConfiguration { buffer_size: Some(v), ..self.settings }),
    {
        WorkerQueryProcessingConfigurationBuilder {
            settings: WorkerQueryProcessingConfiguration { buffer_size: Some(v), ..self.settings },
        }
    }

    /// The finished settings.
    pub fn build(self) -> (r: WorkerQueryProcessingConfiguration)
        ensures
            r == self.settings,
    {
        self.settings
    }
}

/// The host address a source connects to when none is given.
pub fn default_host_ip() -> (r: String)
    ensures
        r@ == "10.0.0.1"@,
{
    "10.0.0.1".to_owned()
}

/// How the bytes a TCP source reads are framed.
#[derive(Debug, Clone, Copy, PartialEq, Eq, Structural)]
pub enum Format {
    /// Native frames, sized by the given number of leading bytes.
    NES(u8),
    /// Comma-separated text, one tuple per line.
    CSV,
}

/// A physical source of a worker, rendered to items.
#[derive(Debug)]
pub struct Source {
    pub source_type: String,
    pub logical_source_name: String,
    pub physical_source_name: String,
    pub config: Vec<ConfigItem>,
}

/// A TCP source of a worker: where it connects and how its bytes are
/// framed.
#[derive(Debug)]
pub struct TCPSourceConfig {
    pub logical_source_name: String,
    pub physical_source_name: Option<String>,
    pub socket_host: String,
    pub socket_port: u16,
    pub flush_interval_ms: u64,
    pub format: Format,
}

impl TCPSourceConfig {
    /// The physical name: the given one, or the logical name suffixed.
    pub open spec fn spec_physical_name(self) -> Seq<char> {
        if self.physical_source_name is Some {
            self.physical_source_name.unwrap()@
        } else {
            self.logical_source_name@ + "_phy"@
        }
    }

    /// The items the source renders to, in their fixed order: the endpoint,
    /// the socket family and type, the flush interval and the framing.
    pub open spec fn spec_config_items(self) -> Seq<(Seq<char>, Seq<char>)> {
        seq![
            ("socketHost"@, self.socket_host@),
            ("socketPort"@, dec_str(self.socket_port as nat)),
            ("socketDomain"@, "AF_INET"@),
            ("socketType"@, "SOCK_STREAM"@),
            ("flushIntervalMS"@, dec_str(self.flush_interval_ms as nat)),
        ] + (match self.format {
            Format::CSV => seq![
                ("inputFormat"@, "CSV"@),
                ("decideMessageSize"@, "TUPLE_SEPARATOR"@),
            ],
            Format::NES(b) => seq![
                ("inputFormat"@, "NES"@),
                ("decideMessageSize"@, "BUFFER_SIZE_FROM_SOCKET"@),
                ("bytesUsedForSocketBufferSizeTransfer"@, dec_str(b as nat)),
            ],
        })
    }

    /// Renders the source to its items under the `TCP_SOURCE` type.
    pub fn into_source(self) -> (r: Source)
        ensures
            r.source_type@ == "TCP_SOURCE"@,
            r.logical_source_name@ == self.logical_source_name@,
            r.physical_source_name@ == self.spec_physical_name(),
            items_view(r.config@) == self.spec_config_items(),
    {
        let mut config: Vec<ConfigItem> = Vec::new();
        config.push(ConfigItem { key: "socketHost".to_owned(), value: self.socket_host.clone() });
        config.push(
            ConfigItem {
                key: "socketPort".to_owned(),
                value: u64_to_dec_string(self.socket_port as u64),
            },
        );
        config.push(ConfigItem { key: "socketDomain".to_owned(), value: "AF_INET".to_owned() });
        config.push(ConfigItem { key: "socketType".to_owned(), value: "SOCK_STREAM".to_owned() });
        config.push(
            ConfigItem {
                key: "flushIntervalMS".to_owned(),
                value: u64_to_dec_string(self.flush_interval_ms),
            },
        );
        match &self.format {
            Format::CSV => {
                config.push(ConfigItem { key: "inputFormat".to_owned(), value: "CSV".to_owned() });
                config.push(
                    ConfigItem {
                        key: "decideMessageSize".to_owned(),
                        value: "TUPLE_SEPARATOR".to_owned(),
                    },
                );
            },
            Format::NES(b) => {
                config.push(ConfigItem { key: "inputFormat".to_owned(), value: "NES".to_owned() });
                config.push(
                    ConfigItem {
                        key: "decideMessageSize".to_owned(),
                        value: "BUFFER_SIZE_FROM_SOCKET".to_owned(),
                    },
                );
                config.push(
                    ConfigItem {
                        key: "bytesUsedForSocketBufferSizeTransfer".to_owned(),
                        value: u64_to_dec_string(*b as u64),
                    },
                );
            },
        }
        let physical_source_name = match self.physical_source_name {
            Some(name) => name,
            None => {
                let mut n = self.logical_source_name.clone();
                n.append("_phy");
                n
            },
        };
        proof {
            assert(items_view(config@) =~= self.spec_config_items());
        }
        Source {
            source_type: "TCP_SOURCE".to_owned(),
            logical_source_name: self.logical_source_name,
            physical_source_name,
            config,
        }
    }
}

/// A chainable builder for a TCP source.  The logical name and the port
/// must be given; the host, the flush interval and the framing have
/// defaults, and the physical name defaults to the suffixed logical name.
#[derive(Debug)]
pub struct TCPSourceConfigBuilder {
    pub logical_source_name: Option<String>,
    pub physical_source_name: Option<String>,
    pub socket_host: Option<String>,
    pub socket_port: Option<u16>,
    pub flush_interval_ms: Option<u64>,
    pub format: Option<Format>,
}

/// The flush interval a source gets when the builder does not say, in
/// milliseconds.
pub const DEFAULT_FLUSH_INTERVAL_MS: u64 = 100;

impl TCPSourceConfigBuilder {
    /// A builder with nothing set.
    pub fn new() -> (r: TCPSourceConfigBuilder)
        ensures
            r.logical_source_name is None,
            r.physical_source_name is None,
            r.socket_host is None,
            r.socket_port is None,
            r.flush_interval_ms is None,
            r.format is None,
    {
        TCPSourceConfigBuilder {
            logical_source_name: None,
            physical_source_name: None,
            socket_host: None,
            socket_port: None,
            flush_interval_ms: None,
            format: None,
        }
    }

    /// Sets the logical source name.
    pub fn logical_source_name(self, v: String) -> (r: Self)
        ensures
            r.logical_source_name == Some(v),
            r.physical_source_name == self.physical_source_name,
            r.socket_host == self.socket_host,
            r.socket_port == self.socket_port,
            r.flush_interval_ms == self.flush_interval_ms,
            r.format == self.format,
    {
        TCPSourceConfigBuilder { logical_source_name: Some(v), ..self }
    }

    /// Sets the physical source name.
    pub fn physical_source_name(self, v: String) -> (r: Self)
        ensures
            r.physical_source_name == Some(v),
            r.logical_source_name == self.logical_source_name,
            r.socket_host == self.socket_host,
            r.socket_port == self.socket_port,
            r.flush_interval_ms == self.flush_interval_ms,
            r.format == self.format,
    {
        TCPSourceConfigBuilder { physical_source_name: Some(v), ..self }
    }

    /// Sets the host the source connects to.
    pub fn socket_host(self, v: String) -> (r: Self)
        ensures
            r.socket_host == Some(v),
            r.logical_source_name == self.logical_source_name,
            r.physical_source_name == self.physical_source_name,
            r.socket_port == self.socket_port,
            r.flush_interval_ms == self.flush_interval_ms,
            r.format == self.format,
    {
        TCPSourceConfigBuilder { socket_host: Some(v), ..self }
    }

    /// Sets the port the source connects to.
    pub fn socket_port(self, v: u16) -> (r: Self)
        ensures
            r.socket_port == Some(v),
            r.logical_source_name == self.logical_source_name,
            r.physical_source_name == self.physical_source_name,
            r.socket_host == self.socket_host,
            r.flush_interval_ms == self.flush_interval_ms,
            r.format == self.format,
    {
        TCPSourceConfigBuilder { socket_port: Some(v), ..self }
    }

    /// Sets the flush interval, in milliseconds.
    pub fn flush_interval_ms(self, v: u64) -> (r: Self)
        ensures
            r.flush_interval_ms == Some(v),
            r.logical_source_name == self.logical_source_name,
            r.physical_source_name == self.physical_source_name,
            r.socket_host == self.socket_host,
            r.socket_port == self.socket_port,
            r.format == self.format,
    {
        TCPSourceConfigBuilder { flush_interval_ms: Some(v), ..self }
    }

    /// Sets the framing.
    pub fn format(self, v: Format) -> (r: Self)
        ensures
            r.format == Some(v),
            r.logical_source_name == self.logical_source_name,
            r.physical_source_name == self.physical_source_name,
            r.socket_host == self.socket_host,
            r.socket_port == self.socket_port,
            r.flush_interval_ms == self.flush_interval_ms,
    {
        TCPSourceConfigBuilder { format: Some(v), ..self }
    }

    /// The finished source.  `None` when the logical name or the port is
    /// missing; the host defaults to the launcher's own address, the flush
    /// interval to its fixed default, the framing to CSV.
    pub fn build(self) -> (r: Option<TCPSourceConfig>)
        ensures
            r is Some <==> (self.logical_source_name is Some && self.socket_port is Some),
            r is Some ==> {
                let c = r.unwrap();
                &&& c.logical_source_name == self.logical_source_name.unwrap()
                &&& c.physical_source_name == self.physical_source_name
                &&& c.socket_port == self.socket_port.unwrap()
                &&& c.socket_host@ == (if self.socket_host is Some {
                    self.socket_host.unwrap()@
                } else {
                    "10.0.0.1"@
                })
                &&& c.flush_interval_ms == (if self.flush_interval_ms is Some {
                    self.flush_interval_ms.unwrap()
                } else {
                    DEFAULT_FLUSH_INTERVAL_MS
                })
                &&& c.format == (if self.format is Some {
                    self.format.unwrap()
                } else {
                    Format::CSV
                })
            },
    {
        let logical_source_name = match self.logical_source_name {
            Some(v) => v,
            None => {
                return None;
            },
        };
        let socket_port = match self.socket_port {
            Some(v) => v,
            None => {
                return None;
            },
        };
        let socket_host = match self.socket_host {
            Some(v) => v,
            None => default_host_ip(),
        };
        let flush_interval_ms = match self.flush_interval_ms {
            Some(v) => v,
            None => DEFAULT_FLUSH_INTERVAL_MS,
        };
        let format = match self.format {
            Some(v) => v,
            None => Format::CSV,
        };
        Some(
            TCPSourceConfig {
                logical_source_name,
                physical_source_name: self.physical_source_name,
                socket_host,
                socket_port,
                flush_interval_ms,
                format,
            },
        )
    }
}

} // verus!
