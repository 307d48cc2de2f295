//! The binding configuration value: which serial device, at which baud rate,
//! bridged to which TCP listen address.

use crate::text::{normalized_baud, normalize_baud_text};
use vstd::prelude::*;
use vstd::string::StringExecFns;

verus! {

/// Baud rate used whenever a configured rate is absent, malformed or zero.
pub const DEFAULT_BAUD: u32 = 115200;

/// Mathematical model of a [`BindingConfig`]: the three fields as plain
/// sequences and an integer.
pub ghost struct ConfigModel {
    pub com_port: Seq<char>,
    pub baud_rate: u32,
    pub tcp_host: Seq<char>,
}

impl ConfigModel {
    /// A configuration may start a binding only when every field is
    /// non-empty / non-zero.
    pub open spec fn valid(self) -> bool {
        &&& self.com_port.len() > 0
        &&& self.baud_rate > 0
        &&& self.tcp_host.len() > 0
    }
}

/// One relay binding: serial device identifier, baud rate, TCP listen
/// address.  Immutable once built; cloned freely for logging and thread
/// hand-off.
#[derive(Clone)]
pub struct BindingConfig {
    pub com_port: String,
    pub baud_rate: u32,
    pub tcp_host: String,
}

impl View for BindingConfig {
    type V = ConfigModel;

    open spec fn view(&self) -> ConfigModel {
        ConfigModel {
            com_port: self.com_port@,
            baud_rate: self.baud_rate,
            tcp_host: self.tcp_host@,
        }
    }
}

impl Default for BindingConfig {
    /// The empty configuration: fields are filled in one by one while an
    /// INI section is folded, then normalized.
    fn default() -> (r: Self)
        ensures
            r@.com_port.len() == 0,
            r@.baud_rate == 0,
            r@.tcp_host.len() == 0,
    {
        BindingConfig { com_port: String::new(), baud_rate: 0, tcp_host: String::new() }
    }
}

impl BindingConfig {
    pub fn new(com_port: String, baud_rate: u32, tcp_host: String) -> (r: Self)
        ensures
            r@.com_port == com_port@,
            r@.baud_rate == baud_rate,
            r@.tcp_host == tcp_host@,
    {
        BindingConfig { com_port, baud_rate, tcp_host }
    }

    /// Builds the single binding described by direct command-line
    /// arguments.  The baud-rate text normalizes exactly as an INI `baud`
    /// value does: a malformed or zero numeral falls back to the default.
    pub fn from_cli(com_port: String, baud_text: &str, tcp_host: String) -> (r: Self)
        ensures
            r@.com_port == com_port@,
            r@.baud_rate == normalized_baud(baud_text@),
            r@.baud_rate > 0,
            r@.tcp_host == tcp_host@,
    {
        let baud_rate = normalize_baud_text(baud_text);
        BindingConfig { com_port, baud_rate, tcp_host }
    }

    /// Whether every field is filled in — the invariant a configuration
    /// must meet by the time a binding starts.
    pub fn is_valid(&self) -> (r: bool)
        ensures
            r == self@.valid(),
    {
        !self.com_port.as_str().is_empty() && self.baud_rate > 0
            && !self.tcp_host.as_str().is_empty()
    }

    /// The pair that identifies this binding in every log line:
    /// `(listen-address <-> serial-identifier)`.
    pub fn describe(&self) -> (r: String)
        ensures
            r@ == "("@ + self.tcp_host@ + " <-> "@ + self.com_port@ + ")"@,
    {
        let mut s = String::from_str("(");
        s.append(self.tcp_host.as_str());
        s.append(" <-> ");
        s.append(self.com_port.as_str());
        s.append(")");
        s
    }
}

} // verus!
