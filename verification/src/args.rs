//! The command line the host starts the plugin with:
//! `-port <n> -pluginUUID <uuid> -registerEvent <event> -info <json>`.

use vstd::prelude::*;
use crate::decimal::{parse_port, parse_u16};
use crate::failure::Failure;
use crate::json::str_eq;
use crate::text::concat;

verus! {

/// Where the connection to the host is made, and how the plugin registers.
pub struct Args {
    pub port: u16,
    pub plugin_uuid: String,
    pub register_event: String,
}

/// What has been read of the flags so far: the port, the plugin UUID and
/// the register event, each once given (a later one replaces an earlier one).
pub type ScanState = (Option<u16>, Option<Seq<char>>, Option<Seq<char>>);

/// Why the command line is refused while its flags are read.
pub enum ArgFault {
    /// The last flag has no value; the text is the flag.
    MissingValue,
    /// A port does not parse; the text is the port given.
    InvalidPort,
}

/// Reads the flag/value pairs from index `i` on. An error gives the fault
/// and the text it concerns.
pub open spec fn scan_args(args: Seq<Seq<char>>, i: int, st: ScanState) -> Result<ScanState, (ArgFault, Seq<char>)>
    decreases args.len() - i,
{
    if i < 0 || i >= args.len() {
        Ok(st)
    } else if i + 1 >= args.len() {
        Err((ArgFault::MissingValue, args[i]))
    } else {
        let flag = args[i];
        let value = args[i + 1];
        if flag == "-port"@ {
            match parse_u16(value) {
                Ok(p) => scan_args(args, i + 2, (Some(p), st.1, st.2)),
                Err(_) => Err((ArgFault::InvalidPort, value)),
            }
        } else if flag == "-pluginUUID"@ {
            scan_args(args, i + 2, (st.0, Some(value), st.2))
        } else if flag == "-registerEvent"@ {
            scan_args(args, i + 2, (st.0, st.1, Some(value)))
        } else {
            scan_args(args, i + 2, st)
        }
    }
}

/// The view of a list of strings.
pub open spec fn strings_view(v: Seq<String>) -> Seq<Seq<char>> {
    v.map_values(|s: String| s@)
}

impl Args {
    /// Reads the command line `argv` (the program's name first, then the
    /// flags). Fails on a flag without a value, on a port that does not
    /// parse (with the reason as its cause), and on a missing port, plugin
    /// UUID or register event, checked in that order.
    pub fn parse(argv: &Vec<String>) -> (r: Result<Args, Failure>)
        ensures
            match scan_args(strings_view(argv@), 1, (None, None, None)) {
                Err((ArgFault::MissingValue, flag)) => r matches Err(f) && f.message@ == "missing value for argument: "@ + flag
                    && f.detail@ == f.message@,
                Err((ArgFault::InvalidPort, text)) => r matches Err(f) && f.message@ == "invalid port"@
                    && f.detail@ == "invalid port"@ + ": "@ + parse_u16(text)->Err_0.text_spec(),
                Ok((port, plugin, register)) => if port is None {
                    r matches Err(f) && f.message@ == "missing -port"@ && f.detail@ == f.message@
                } else if plugin is None {
                    r matches Err(f) && f.message@ == "missing -pluginUUID"@ && f.detail@ == f.message@
                } else if register is None {
                    r matches Err(f) && f.message@ == "missing -registerEvent"@ && f.detail@ == f.message@
                } else {
                    r matches Ok(a) && a.port == port->0 && a.plugin_uuid@ == plugin->0 && a.register_event@ == register->0
                },
            },
    {
        let ghost args = strings_view(argv@);
        let mut port: Option<u16> = None;
        let mut plugin_uuid: Option<String> = None;
        let mut register_event: Option<String> = None;
        let mut i: usize = 1;
        while i < argv.len()
            invariant
                args == strings_view(argv@),
                1 <= i,
                scan_args(args, 1, (None, None, None)) == scan_args(args, i as int, (port, match plugin_uuid {
                    Some(s) => Some(s@),
                    None => None,
                }, match register_event {
                    Some(s) => Some(s@),
                    None => None,
                })),
            decreases argv@.len() - i,
        {
            if i + 1 >= argv.len() {
                return Err(Failure::new(concat("missing value for argument: ", argv[i].as_str())));
            }
            let flag = argv[i].as_str();
            let value = &argv[i + 1];
            if str_eq(flag, "-port") {
                match parse_port(value.as_str()) {
                    Ok(p) => port = Some(p),
                    Err(e) => return Err(Failure::caused_by("invalid port", &Failure::msg(e.text()))),
                }
            } else if str_eq(flag, "-pluginUUID") {
                plugin_uuid = Some(value.clone());
            } else if str_eq(flag, "-registerEvent") {
                register_event = Some(value.clone());
            }
            i = i + 2;
        }
        let port = match port {
            Some(p) => p,
            None => return Err(Failure::msg("missing -port")),
        };
        let plugin_uuid = match plugin_uuid {
            Some(p) => p,
            None => return Err(Failure::msg("missing -pluginUUID")),
        };
        let register_event = match register_event {
            Some(p) => p,
            None => return Err(Failure::msg("missing -registerEvent")),
        };
        Ok(Args { port, plugin_uuid, register_event })
    }
}

} // verus!
