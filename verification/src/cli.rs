//! Host and port configuration for reaching the storage service.

use vstd::prelude::*;

use crate::text::{dec_digits, u32_decimal};

verus! {

/// Where the storage service is reached. Both parts are optional; the
/// defaults are host `localhost` and port 3000.
#[derive(Clone, Debug)]
pub struct Cli {
    /// Result guide host name.
    pub host: Option<String>,
    /// Result guide host port.
    pub port: Option<u16>,
}

/// The mathematical value of a [`Cli`].
pub struct CliView {
    pub host: Option<Seq<char>>,
    pub port: Option<int>,
}

impl View for Cli {
    type V = CliView;

    open spec fn view(&self) -> CliView {
        CliView {
            host: match self.host {
                Option::Some(ref h) => Option::Some(h@),
                Option::None => Option::None,
            },
            port: match self.port {
                Option::Some(p) => Option::Some(p as int),
                Option::None => Option::None,
            },
        }
    }
}

/// The base URL built from a configuration, defaults applied:
/// `http://{host}:{port}`.
pub open spec fn base_url_of(c: CliView) -> Seq<char> {
    let host = match c.host {
        Option::Some(h) => h,
        Option::None => "localhost"@,
    };
    let port = match c.port {
        Option::Some(p) => p,
        Option::None => 3000,
    };
    "http://"@ + host + ":"@ + dec_digits(port)
}

impl Cli {
    /// Builds the base URL [`base_url_of`] promises, against which request
    /// paths are resolved.
    pub fn base_url(&self) -> (s: String)
        ensures
            s@ == base_url_of(self@),
    {
        let mut s = String::from_str("http://");
        match &self.host {
            Option::Some(h) => s.append(h.as_str()),
            Option::None => s.append("localhost"),
        }
        s.append(":");
        let port: u16 = match self.port {
            Option::Some(p) => p,
            Option::None => 3000,
        };
        s.append(u32_decimal(port as u32).as_str());
        proof {
            reveal_strlit("http://");
            reveal_strlit("localhost");
            reveal_strlit(":");
            assert(s@ =~= base_url_of(self@));
        }
        s
    }
}

} // verus!
