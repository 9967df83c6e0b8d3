//! The application's stored settings: which account to query, the session
//! credential, where the music library lives, and the preferred download
//! format. Reading and writing the configuration file is the caller's
//! business; this module owns the values and the rules about them.
use vstd::prelude::*;

use crate::digits::dec_digits;
use crate::digits::u64_string;
use crate::format::Format;
use crate::format::spec_format_name;

verus! {

/// The configuration record. Every field is optional: a fresh installation
/// has none of them.
#[derive(Debug, Clone)]
pub struct Config {
    pub fan_id: Option<u32>,
    pub identity: Option<String>,
    pub library: Option<String>,
    pub format: Option<Format>,
}

/// A configuration is usable when an account is set and positive, a session
/// credential is set and non-empty, a library path is set and points at an
/// existing directory, and a format is chosen. Whether the path exists is a
/// question about the file system, so the answer is handed in.
pub open spec fn spec_config_valid(c: Config, library_exists: bool) -> bool {
    &&& c.fan_id is Some && c.fan_id->0 > 0
    &&& c.identity is Some && c.identity->0@.len() > 0
    &&& c.library is Some && library_exists
    &&& c.format is Some
}

/// One line of the configuration's textual form, per field that is set.
pub open spec fn spec_fan_id_line(c: Config) -> Seq<char> {
    if c.fan_id is Some {
        "fan_id:   "@ + dec_digits(c.fan_id->0 as nat) + "\n"@
    } else {
        Seq::<char>::empty()
    }
}

pub open spec fn spec_identity_line(c: Config) -> Seq<char> {
    if c.identity is Some {
        "identity: "@ + c.identity->0@ + "\n"@
    } else {
        Seq::<char>::empty()
    }
}

pub open spec fn spec_library_line(c: Config) -> Seq<char> {
    if c.library is Some {
        "library:  "@ + c.library->0@ + "\n"@
    } else {
        Seq::<char>::empty()
    }
}

pub open spec fn spec_format_line(c: Config) -> Seq<char> {
    if c.format is Some {
        "format:   "@ + spec_format_name(c.format->0) + "\n"@
    } else {
        Seq::<char>::empty()
    }
}

/// The whole textual form: one labelled line per field that is set, in a
/// fixed order.
pub open spec fn spec_describe(c: Config) -> Seq<char> {
    spec_fan_id_line(c) + spec_identity_line(c) + spec_library_line(c) + spec_format_line(c)
}

impl Config {
    /// A configuration with every field set.
    pub fn new(fan_id: u32, identity: String, library: String, format: Format) -> (r: Self)
        ensures
            r.fan_id == Some(fan_id),
            r.identity == Some(identity),
            r.library == Some(library),
            r.format == Some(format),
    {
        Self {
            fan_id: Some(fan_id),
            identity: Some(identity),
            library: Some(library),
            format: Some(format),
        }
    }

    /// Whether the configuration is complete enough to run any command.
    /// `library_exists` answers whether the configured library path exists
    /// on disk; with no library configured it is ignored.
    pub fn is_valid(&self, library_exists: bool) -> (r: bool)
        ensures
            r == spec_config_valid(*self, library_exists),
    {
        let fan_id_cfgd = match self.fan_id {
            Some(id) => id > 0,
            None => false,
        };
        let identity_cfgd = match &self.identity {
            Some(ident) => !ident.as_str().is_empty(),
            None => false,
        };
        let library_cfgd = match &self.library {
            Some(_) => library_exists,
            None => false,
        };
        fan_id_cfgd && identity_cfgd && library_cfgd && self.format.is_some()
    }

    /// The configuration as text, one labelled line per field that is set.
    pub fn describe(&self) -> (r: String)
        ensures
            r@ == spec_describe(*self),
    {
        let mut out = String::new();
        if let Some(fan_id) = self.fan_id {
            out.append("fan_id:   ");
            out.append(u64_string(fan_id as u64).as_str());
            out.append("\n");
        }
        assert(out@ =~= spec_fan_id_line(*self));
        if let Some(identity) = &self.identity {
            out.append("identity: ");
            out.append(identity.as_str());
            out.append("\n");
        }
        assert(out@ =~= spec_fan_id_line(*self) + spec_identity_line(*self));
        if let Some(library) = &self.library {
            out.append("library:  ");
            out.append(library.as_str());
            out.append("\n");
        }
        assert(out@ =~= spec_fan_id_line(*self) + spec_identity_line(*self) + spec_library_line(
            *self,
        ));
        if let Some(format) = self.format {
            out.append("format:   ");
            out.append(format.name());
            out.append("\n");
        }
        assert(out@ =~= spec_describe(*self));
        out
    }
}

/// The values an update command may bring: any subset of the fields.
#[derive(Debug, Clone)]
pub struct ConfigureOpts {
    pub fan_id: Option<u32>,
    pub identity: Option<String>,
    pub library: Option<String>,
    pub format: Option<Format>,
}

/// The user-facing notices an update produces, one per field brought, in
/// field order.
pub open spec fn spec_update_messages(opts: ConfigureOpts) -> Seq<Seq<char>> {
    (if opts.fan_id is Some {
        seq!["Updated fan ID to "@ + dec_digits(opts.fan_id->0 as nat) + "\n"@]
    } else {
        Seq::<Seq<char>>::empty()
    }) + (if opts.identity is Some {
        seq!["Updated identity to "@ + opts.identity->0@ + "\n"@]
    } else {
        Seq::<Seq<char>>::empty()
    }) + (if opts.library is Some {
        seq!["Updated library to "@ + opts.library->0@ + "\n"@]
    } else {
        Seq::<Seq<char>>::empty()
    }) + (if opts.format is Some {
        seq!["Updated default format to "@ + spec_format_name(opts.format->0) + "\n"@]
    } else {
        Seq::<Seq<char>>::empty()
    })
}

/// Overwrites each configured value that the options bring, leaves the rest,
/// and reports one notice per change.
pub fn configure_update(config: Config, opts: ConfigureOpts) -> (r: (Config, Vec<String>))
    ensures
        r.0.fan_id == (if opts.fan_id is Some {
            opts.fan_id
        } else {
            config.fan_id
        }),
        r.0.identity == (if opts.identity is Some {
            opts.identity
        } else {
            config.identity
        }),
        r.0.library == (if opts.library is Some {
            opts.library
        } else {
            config.library
        }),
        r.0.format == (if opts.format is Some {
            opts.format
        } else {
            config.format
        }),
        r.1.deep_view() == spec_update_messages(opts),
{
    let mut config = config;
    let mut messages: Vec<String> = Vec::new();

    if let Some(fan_id) = opts.fan_id {
        let mut m = "Updated fan ID to ".to_owned();
        m.append(u64_string(fan_id as u64).as_str());
        m.append("\n");
        assert(m@ =~= "Updated fan ID to "@ + dec_digits(fan_id as nat) + "\n"@);
        messages.push(m);
        config.fan_id = Some(fan_id);
    }
    if let Some(identity) = opts.identity {
        let mut m = "Updated identity to ".to_owned();
        m.append(identity.as_str());
        m.append("\n");
        assert(m@ =~= "Updated identity to "@ + identity@ + "\n"@);
        messages.push(m);
        config.identity = Some(identity);
    }
    if let Some(library) = opts.library {
        let mut m = "Updated library to ".to_owned();
        m.append(library.as_str());
        m.append("\n");
        assert(m@ =~= "Updated library to "@ + library@ + "\n"@);
        messages.push(m);
        config.library = Some(library);
    }
    if let Some(format) = opts.format {
        let mut m = "Updated default format to ".to_owned();
        m.append(format.name());
        m.append("\n");
        assert(m@ =~= "Updated default format to "@ + spec_format_name(format) + "\n"@);
        messages.push(m);
        config.format = Some(format);
    }
    assert(messages.deep_view() =~~= spec_update_messages(opts));

    (config, messages)
}

} // verus!
