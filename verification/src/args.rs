//! Command-line argument parsing for the tool around the library.
//!
//! The accepted options and their meaning are modeled by [`args_model`]; the
//! executable parser is proved to return exactly the model's outcome,
//! including the exact error messages.

use vstd::prelude::*;
use vstd::string::StringExecFns;

use crate::text::starts_with_char;
use crate::text::str_eq;

verus! {

/// The configuration selected by the command line.
#[derive(Debug, PartialEq)]
pub struct Config {
    /// Print the help text and exit.
    pub help: bool,
    /// Print the version and exit.
    pub version: bool,
    /// Output compact rather than pretty-printed structured data.
    pub compact: bool,
    /// Print the interchange schema and exit.
    pub schema: bool,
    /// Convert structured input back to a script.
    pub to_bash: bool,
    /// Run as a socket server.
    pub server: bool,
    /// Socket path given after the server option, if any.
    pub socket_path: Option<String>,
    /// The input file, if one was given.
    pub file: Option<String>,
}

/// Model of a configuration, over character sequences.
pub struct ConfigV {
    pub help: bool,
    pub version: bool,
    pub compact: bool,
    pub schema: bool,
    pub to_bash: bool,
    pub server: bool,
    pub socket_path: Option<Seq<char>>,
    pub file: Option<Seq<char>>,
}

impl Config {
    /// Deep view of a configuration.
    pub open spec fn deep(&self) -> ConfigV {
        ConfigV {
            help: self.help,
            version: self.version,
            compact: self.compact,
            schema: self.schema,
            to_bash: self.to_bash,
            server: self.server,
            socket_path: match self.socket_path {
                Some(p) => Some(p@),
                None => None,
            },
            file: match self.file {
                Some(p) => Some(p@),
                None => None,
            },
        }
    }
}

/// The configuration before any argument is seen.
pub open spec fn initial_config_v() -> ConfigV {
    ConfigV {
        help: false,
        version: false,
        compact: false,
        schema: false,
        to_bash: false,
        server: false,
        socket_path: None,
        file: None,
    }
}

/// True when the argument begins with `-` (an option rather than a
/// positional argument).
pub open spec fn looks_like_option(a: Seq<char>) -> bool {
    a.len() > 0 && a[0] == '-'
}

/// One scan step over the arguments from position `i`: options update the
/// configuration, the server option may consume a following socket path,
/// everything else is collected as a positional argument, and an unknown
/// option stops the scan with an error message.
pub open spec fn args_scan(
    args: Seq<Seq<char>>,
    i: int,
    cfg: ConfigV,
    pos: Seq<Seq<char>>,
) -> Result<(ConfigV, Seq<Seq<char>>), Seq<char>>
    decreases args.len() - i,
{
    if i < 0 || i >= args.len() {
        Ok((cfg, pos))
    } else {
        let a = args[i];
        if a == "-h"@ || a == "--help"@ {
            args_scan(args, i + 1, ConfigV { help: true, ..cfg }, pos)
        } else if a == "-V"@ || a == "--version"@ {
            args_scan(args, i + 1, ConfigV { version: true, ..cfg }, pos)
        } else if a == "-c"@ || a == "--compact"@ {
            args_scan(args, i + 1, ConfigV { compact: true, ..cfg }, pos)
        } else if a == "-s"@ || a == "--schema"@ {
            args_scan(args, i + 1, ConfigV { schema: true, ..cfg }, pos)
        } else if a == "-b"@ || a == "--to-bash"@ {
            args_scan(args, i + 1, ConfigV { to_bash: true, ..cfg }, pos)
        } else if a == "-S"@ || a == "--server"@ {
            if i + 1 < args.len() && !looks_like_option(args[i + 1]) {
                args_scan(
                    args,
                    i + 2,
                    ConfigV { server: true, socket_path: Some(args[i + 1]), ..cfg },
                    pos,
                )
            } else {
                args_scan(args, i + 1, ConfigV { server: true, ..cfg }, pos)
            }
        } else if a == "-"@ {
            args_scan(args, i + 1, cfg, pos.push(a))
        } else if looks_like_option(a) {
            Err("Unknown option: "@ + a + "\nTry 'bash-ast --help' for usage."@)
        } else {
            args_scan(args, i + 1, cfg, pos.push(a))
        }
    }
}

/// The outcome of parsing an argument list: the configuration, or the exact
/// error message. A file cannot be combined with server mode, and at most
/// one positional argument is accepted.
pub open spec fn args_model(args: Seq<Seq<char>>) -> Result<ConfigV, Seq<char>> {
    match args_scan(args, 0, initial_config_v(), Seq::empty()) {
        Err(e) => Err(e),
        Ok((cfg, pos)) => {
            if cfg.server && pos.len() > 0 {
                Err("Cannot specify file when using --server mode.\nTry 'bash-ast --help' for usage."@)
            } else if pos.len() > 1 {
                Err("Too many arguments. Expected at most one file.\nTry 'bash-ast --help' for usage."@)
            } else {
                Ok(
                    ConfigV {
                        file: if pos.len() == 1 {
                            Some(pos[0])
                        } else {
                            None
                        },
                        ..cfg
                    },
                )
            }
        },
    }
}

/// Deep view of a parse outcome.
pub open spec fn deep_args_result(r: Result<Config, String>) -> Result<ConfigV, Seq<char>> {
    match r {
        Ok(cfg) => Ok(cfg.deep()),
        Err(m) => Err(m@),
    }
}

/// Parse command-line arguments (the program name excluded).
///
/// Returns exactly the configuration or error message that [`args_model`]
/// assigns to the argument list.
pub fn parse_args(args: &[String]) -> (r: Result<Config, String>)
    ensures
        deep_args_result(r) == args_model(args@.map_values(|a: String| a@)),
{
    let ghost argv = args@.map_values(|a: String| a@);
    let mut config = Config {
        help: false,
        version: false,
        compact: false,
        schema: false,
        to_bash: false,
        server: false,
        socket_path: None,
        file: None,
    };
    let mut positional: Vec<String> = Vec::new();
    proof {
        assert(positional@.map_values(|a2: String| a2@) =~= Seq::<Seq<char>>::empty());
        assert(config.deep() == initial_config_v());
    }
    let n = args.len();
    let mut i: usize = 0;
    while i < n
        invariant
            n == args@.len(),
            argv == args@.map_values(|a: String| a@),
            argv.len() == n,
            i <= n,
            config.file is None,
            args_scan(argv, 0, initial_config_v(), Seq::empty()) == args_scan(
                argv,
                i as int,
                config.deep(),
                positional@.map_values(|a: String| a@),
            ),
        decreases n - i,
    {
        let ghost cfg0 = config.deep();
        let ghost pos0 = positional@.map_values(|a: String| a@);
        let a = &args[i];
        proof {
            assert(argv[i as int] == args@[i as int]@);
        }
        if str_eq(a.as_str(), "-h") || str_eq(a.as_str(), "--help") {
            config.help = true;
            i = i + 1;
        } else if str_eq(a.as_str(), "-V") || str_eq(a.as_str(), "--version") {
            config.version = true;
            i = i + 1;
        } else if str_eq(a.as_str(), "-c") || str_eq(a.as_str(), "--compact") {
            config.compact = true;
            i = i + 1;
        } else if str_eq(a.as_str(), "-s") || str_eq(a.as_str(), "--schema") {
            config.schema = true;
            i = i + 1;
        } else if str_eq(a.as_str(), "-b") || str_eq(a.as_str(), "--to-bash") {
            config.to_bash = true;
            i = i + 1;
        } else if str_eq(a.as_str(), "-S") || str_eq(a.as_str(), "--server") {
            config.server = true;
            if i + 1 < n && !starts_with_char(args[i + 1].as_str(), '-') {
                proof {
                    assert(argv[i as int + 1] == args@[i as int + 1]@);
                }
                config.socket_path = Some(args[i + 1].clone());
                i = i + 2;
            } else {
                i = i + 1;
            }
        } else if str_eq(a.as_str(), "-") {
            positional.push(a.clone());
            proof {
                assert(positional@.map_values(|x: String| x@) =~= pos0.push(argv[i as int]));
            }
            i = i + 1;
        } else if starts_with_char(a.as_str(), '-') {
            let mut msg = String::new();
            msg.append("Unknown option: ");
            msg.append(a.as_str());
            msg.append("\nTry 'bash-ast --help' for usage.");
            proof {
                assert(msg@ =~= "Unknown option: "@ + argv[i as int]
                    + "\nTry 'bash-ast --help' for usage."@);
            }
            return Err(msg);
        } else {
            positional.push(a.clone());
            proof {
                assert(positional@.map_values(|x: String| x@) =~= pos0.push(argv[i as int]));
            }
            i = i + 1;
        }
        proof {
            assert(args_scan(argv, 0, initial_config_v(), Seq::empty()) == args_scan(
                argv,
                i as int,
                config.deep(),
                positional@.map_values(|a2: String| a2@),
            ));
        }
    }
    let ghost pos_final = positional@.map_values(|a2: String| a2@);
    proof {
        assert(pos_final.len() == positional@.len());
    }
    if config.server && positional.len() > 0 {
        let mut msg = String::new();
        msg.append(
            "Cannot specify file when using --server mode.\nTry 'bash-ast --help' for usage.",
        );
        proof {
            assert(msg@
                =~= "Cannot specify file when using --server mode.\nTry 'bash-ast --help' for usage."@);
        }
        return Err(msg);
    }
    if positional.len() > 1 {
        let mut msg = String::new();
        msg.append(
            "Too many arguments. Expected at most one file.\nTry 'bash-ast --help' for usage.",
        );
        proof {
            assert(msg@
                =~= "Too many arguments. Expected at most one file.\nTry 'bash-ast --help' for usage."@);
        }
        return Err(msg);
    }
    if positional.len() == 1 {
        match positional.pop() {
            Some(p) => {
                proof {
                    assert(pos_final[0] == p@);
                }
                config.file = Some(p);
            },
            None => {},
        }
    }
    Ok(config)
}

} // verus!
