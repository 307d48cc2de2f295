//! Turning INI text into binding configurations.
//!
//! The INI grammar itself is handled by the `ini` crate behind one trusted
//! wrapper; everything after that — picking the `[relay]` sections, folding
//! their `com` / `baud` / `host` keys into a [`BindingConfig`], normalizing
//! the baud rate, and reporting unknown section names — is verified here.

use crate::config::{BindingConfig, ConfigModel, DEFAULT_BAUD};
use crate::text::{eq_ignore_ascii_case, parsed_u32, parse_u32_digits, str_eq_ignore_case,
    str_equal};
use vstd::prelude::*;

verus! {

/// One key/value property of an INI section, as the parser hands it over.
pub struct RawProp {
    pub key: String,
    pub value: String,
}

impl View for RawProp {
    type V = (Seq<char>, Seq<char>);

    open spec fn view(&self) -> (Seq<char>, Seq<char>) {
        (self.key@, self.value@)
    }
}

/// One INI section: its name (`None` for the unnamed general section) and
/// its properties in file order.
pub struct RawSection {
    pub name: Option<String>,
    pub props: Vec<RawProp>,
}

/// Mathematical model of one section: the name and the ordered properties
/// as plain character sequences.
pub type SectionModel = (Option<Seq<char>>, Seq<(Seq<char>, Seq<char>)>);

impl View for RawSection {
    type V = SectionModel;

    open spec fn view(&self) -> SectionModel {
        (
            match self.name {
                Some(n) => Some(n@),
                None => None,
            },
            self.props@.map_values(|p: RawProp| p@),
        )
    }
}

/// What the `ini` crate's parser yields on a given text: the ordered
/// sections with their properties, or nothing when the text is malformed.
/// The outcome depends on the text alone.
pub uninterp spec fn ini_sections_of(text: Seq<char>) -> Option<Seq<SectionModel>>;

/// Relies on `ini::Ini::load_from_str`: it parses INI text into an ordered
/// list of sections, each holding its key/value properties in order, and
/// fails exactly on malformed text.  Repeated section names stay separate
/// entries, in file order.
#[verifier::external_body]
fn load_sections(text: &str) -> (r: Option<Vec<RawSection>>)
    ensures
        (r is Some) == (ini_sections_of(text@) is Some),
        r matches Some(secs) ==> Some(secs@.map_values(|s: RawSection| s@)) == ini_sections_of(
            text@,
        ),
{
    match ini::Ini::load_from_str(text) {
        Ok(doc) => Some(
            doc.iter().map(|(name, props)| RawSection {
                name: name.map(|n| n.to_string()),
                props: props.iter().map(
                    |(k, v)| RawProp { key: k.to_string(), value: v.to_string() },
                ).collect(),
            }).collect(),
        ),
        Err(_) => None,
    }
}

/// The section name that declares a relay binding.
pub open spec fn relay_name() -> Seq<char> {
    "relay"@
}

/// A named section declares a relay binding exactly when its name is
/// `relay`.
pub open spec fn is_relay_section(name: Option<Seq<char>>) -> bool {
    name == Some(relay_name())
}

/// The configuration field a property key selects, compared ignoring ASCII
/// case; unrecognized keys change nothing.
pub open spec fn apply_prop(c: ConfigModel, key: Seq<char>, value: Seq<char>) -> ConfigModel {
    if eq_ignore_ascii_case(key, "com"@) {
        ConfigModel { com_port: value, baud_rate: c.baud_rate, tcp_host: c.tcp_host }
    } else if eq_ignore_ascii_case(key, "baud"@) {
        ConfigModel { com_port: c.com_port, baud_rate: parsed_or_zero(value), tcp_host: c.tcp_host }
    } else if eq_ignore_ascii_case(key, "host"@) {
        ConfigModel { com_port: c.com_port, baud_rate: c.baud_rate, tcp_host: value }
    } else {
        c
    }
}

/// A malformed numeral counts as zero while a section is folded; the zero
/// is normalized away once the section ends.
pub open spec fn parsed_or_zero(s: Seq<char>) -> u32 {
    match parsed_u32(s) {
        Some(n) => n,
        None => 0,
    }
}

/// The empty configuration a section's fold starts from.
pub open spec fn empty_config() -> ConfigModel {
    ConfigModel { com_port: Seq::empty(), baud_rate: 0, tcp_host: Seq::empty() }
}

/// Folds a section's properties over a configuration, first to last, so a
/// repeated key keeps its last value.
pub open spec fn fold_props(c: ConfigModel, props: Seq<(Seq<char>, Seq<char>)>) -> ConfigModel
    decreases props.len(),
{
    if props.len() == 0 {
        c
    } else {
        apply_prop(fold_props(c, props.drop_last()), props.last().0, props.last().1)
    }
}

/// The configuration one `[relay]` section denotes: its properties folded
/// over the empty configuration, with a missing, zero or malformed baud
/// rate normalized to the default.
pub open spec fn section_config(props: Seq<(Seq<char>, Seq<char>)>) -> ConfigModel {
    let c = fold_props(empty_config(), props);
    if c.baud_rate == 0 {
        ConfigModel { com_port: c.com_port, baud_rate: DEFAULT_BAUD, tcp_host: c.tcp_host }
    } else {
        c
    }
}

/// The configurations a section list denotes: one per `[relay]` section, in
/// order; other sections contribute nothing.
pub open spec fn configs_of(secs: Seq<SectionModel>) -> Seq<ConfigModel>
    decreases secs.len(),
{
    if secs.len() == 0 {
        Seq::empty()
    } else {
        let rest = configs_of(secs.drop_last());
        if is_relay_section(secs.last().0) {
            rest.push(section_config(secs.last().1))
        } else {
            rest
        }
    }
}

/// The names of the named sections that are not `[relay]`, in order; they
/// are reported but do not stop parsing.
pub open spec fn unknown_section_names(secs: Seq<SectionModel>) -> Seq<Seq<char>>
    decreases secs.len(),
{
    if secs.len() == 0 {
        Seq::empty()
    } else {
        let rest = unknown_section_names(secs.drop_last());
        match secs.last().0 {
            Some(n) => if n == relay_name() {
                rest
            } else {
                rest.push(n)
            },
            None => rest,
        }
    }
}

/// Folds one section's properties into a configuration value.
fn section_to_config(props: &Vec<RawProp>) -> (r: BindingConfig)
    ensures
        r@ == section_config(props@.map_values(|p: RawProp| p@)),
{
    let ghost m = props@.map_values(|p: RawProp| p@);
    let mut c = BindingConfig::default();
    proof {
        assert(c@.com_port =~= Seq::<char>::empty());
        assert(c@.tcp_host =~= Seq::<char>::empty());
        assert(c@ == empty_config());
        assert(m.subrange(0, 0) =~= Seq::<(Seq<char>, Seq<char>)>::empty());
    }
    let mut i: usize = 0;
    while i < props.len()
        invariant
            0 <= i <= props.len(),
            m == props@.map_values(|p: RawProp| p@),
            m.len() == props@.len(),
            c@ == fold_props(empty_config(), m.subrange(0, i as int)),
        decreases props.len() - i,
    {
        let prop = &props[i];
        proof {
            assert(m.subrange(0, i + 1).drop_last() =~= m.subrange(0, i as int));
            assert(m.subrange(0, i + 1).last() == m[i as int]);
        }
        if str_eq_ignore_case(prop.key.as_str(), "com") {
            c.com_port = prop.value.clone();
        } else if str_eq_ignore_case(prop.key.as_str(), "baud") {
            c.baud_rate = match parse_u32_digits(prop.value.as_str()) {
                Some(n) => n,
                None => 0,
            };
        } else if str_eq_ignore_case(prop.key.as_str(), "host") {
            c.tcp_host = prop.value.clone();
        }
        i = i + 1;
    }
    proof {
        assert(m.subrange(0, props@.len() as int) =~= m);
    }
    if c.baud_rate == 0 {
        c.baud_rate = DEFAULT_BAUD;
    }
    c
}

/// The outcome of reading a configuration text: the bindings it declares
/// and the unknown section names to report.
pub struct ParsedBindings {
    pub configs: Vec<BindingConfig>,
    pub unknown_sections: Vec<String>,
}

/// A configuration text that the INI parser rejects.
#[derive(Clone, Copy, PartialEq, Eq, Structural, Debug)]
pub enum ConfigError {
    IniSyntax,
}

/// Walks the parsed sections, collecting one configuration per `[relay]`
/// section and the names of unknown sections.
pub fn configs_from_sections(sections: &Vec<RawSection>) -> (r: ParsedBindings)
    ensures
        r.configs@.map_values(|c: BindingConfig| c@) == configs_of(
            sections@.map_values(|s: RawSection| s@),
        ),
        r.unknown_sections@.map_values(|n: String| n@) == unknown_section_names(
            sections@.map_values(|s: RawSection| s@),
        ),
{
    let ghost m = sections@.map_values(|s: RawSection| s@);
    let mut configs: Vec<BindingConfig> = Vec::new();
    let mut unknown: Vec<String> = Vec::new();
    let mut i: usize = 0;
    while i < sections.len()
        invariant
            0 <= i <= sections.len(),
            m == sections@.map_values(|s: RawSection| s@),
            m.len() == sections@.len(),
            configs@.map_values(|c: BindingConfig| c@) == configs_of(m.subrange(0, i as int)),
            unknown@.map_values(|n: String| n@) == unknown_section_names(
                m.subrange(0, i as int),
            ),
        decreases sections.len() - i,
    {
        let sec = &sections[i];
        proof {
            assert(m.subrange(0, i + 1).drop_last() =~= m.subrange(0, i as int));
            assert(m.subrange(0, i + 1).last() == m[i as int]);
        }
        match &sec.name {
            Some(n) => {
                if str_equal(n.as_str(), "relay") {
                    let c = section_to_config(&sec.props);
                    configs.push(c);
                    proof {
                        assert(configs@.map_values(|c: BindingConfig| c@) =~= configs_of(
                            m.subrange(0, i + 1),
                        ));
                    }
                } else {
                    unknown.push(n.clone());
                    proof {
                        assert(unknown@.map_values(|n: String| n@) =~= unknown_section_names(
                            m.subrange(0, i + 1),
                        ));
                    }
                }
            },
            None => {},
        }
        i = i + 1;
    }
    proof {
        assert(m.subrange(0, sections@.len() as int) =~= m);
    }
    ParsedBindings { configs, unknown_sections: unknown }
}

/// Reads a whole INI configuration text: one binding per `[relay]` section,
/// unknown section names collected for reporting, and an error exactly when
/// the text is not well-formed INI.
pub fn parse_ini_text(text: &str) -> (r: Result<ParsedBindings, ConfigError>)
    ensures
        (r is Ok) == (ini_sections_of(text@) is Some),
        r matches Ok(p) ==> ini_sections_of(text@) matches Some(secs)
            && p.configs@.map_values(|c: BindingConfig| c@) == configs_of(secs)
            && p.unknown_sections@.map_values(|n: String| n@) == unknown_section_names(secs),
        r matches Err(e) ==> e is IniSyntax,
{
    match load_sections(text) {
        Some(sections) => Ok(configs_from_sections(&sections)),
        None => Err(ConfigError::IniSyntax),
    }
}

/// The number of `[relay]` sections in a section list.
pub open spec fn relay_count(secs: Seq<SectionModel>) -> nat
    decreases secs.len(),
{
    if secs.len() == 0 {
        0
    } else {
        relay_count(secs.drop_last()) + (if is_relay_section(secs.last().0) {
            1nat
        } else {
            0
        })
    }
}

/// Law: INI normalization.  Every configuration produced from a section
/// list carries a positive baud rate — a zero or malformed `baud` value
/// falls back to the default — and each `[relay]` section yields exactly
/// one configuration, however many unknown sections surround it.
pub proof fn lemma_ini_normalization(secs: Seq<SectionModel>)
    ensures
        configs_of(secs).len() == relay_count(secs),
        forall|i: int| 0 <= i < configs_of(secs).len() ==> (#[trigger] configs_of(
            secs,
        )[i]).baud_rate > 0,
    decreases secs.len(),
{
    if secs.len() > 0 {
        lemma_ini_normalization(secs.drop_last());
    }
}

} // verus!
