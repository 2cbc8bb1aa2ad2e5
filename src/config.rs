//! Site configuration: read once per build, with documented defaults for
//! every field and for a missing or malformed configuration file.

use vstd::prelude::*;
use crate::text::{copy_texts, text_eq};

verus! {

/// The kind of link written into every page.
#[derive(Clone, Copy, Debug, PartialEq, Eq, Structural)]
pub enum LinkType {
    /// `relative`
    Relative,
    /// `absolute`
    Absolute,
}

/// How far the generated site is optimised.
#[derive(Clone, Copy, Debug, PartialEq, Eq, Structural)]
pub enum OptimisationLevel {
    /// `none`
    Off,
    /// `low`
    Low,
    /// `high`
    High,
}

/// The configuration of a site.
#[derive(Debug)]
pub struct WingConfig {
    /// If `true`, generates an RSS feed.
    pub rss: bool,
    /// If `true`, generates an XML sitemap.
    pub site_map: bool,
    /// The type of link to use in all files.
    pub link_type: LinkType,
    /// The level of optimisation to run the new site through.
    pub optimisation_level: OptimisationLevel,
    /// Commands to run before building, in order.
    pub pre_scripts: Vec<String>,
    /// Commands to run after building, in order.
    pub post_scripts: Vec<String>,
}

/// The fields of a configuration file as written; an absent field is `None`.
#[derive(Debug, Default)]
pub struct ConfigFile {
    pub rss: Option<bool>,
    pub site_map: Option<bool>,
    pub link_type: Option<String>,
    pub optimisation_level: Option<String>,
    pub pre_scripts: Option<Vec<String>>,
    pub post_scripts: Option<Vec<String>>,
}

impl ConfigFile {
    /// `linkType` is given and names no link type.
    pub open spec fn names_unknown_link_type(&self) -> bool {
        match self.link_type {
            Some(s) => link_type_named(s@) is None,
            None => false,
        }
    }

    /// A field names a link type or an optimisation level that does not exist.
    pub open spec fn names_unknown_value(&self) -> bool {
        ||| self.names_unknown_link_type()
        ||| match self.optimisation_level {
            Some(s) => level_named(s@) is None,
            None => false,
        }
    }
}

/// Why a configuration file was not taken.
#[derive(Clone, Copy, Debug, PartialEq, Eq, Structural)]
pub enum ConfigError {
    /// `linkType` is neither `relative` nor `absolute`.
    UnknownLinkType,
    /// `optimisationLevel` is none of `none`, `low`, `high`.
    UnknownOptimisationLevel,
}

/// The link type that a `linkType` value names.
pub open spec fn link_type_named(s: Seq<char>) -> Option<LinkType> {
    if s == seq!['r', 'e', 'l', 'a', 't', 'i', 'v', 'e'] {
        Some(LinkType::Relative)
    } else if s == seq!['a', 'b', 's', 'o', 'l', 'u', 't', 'e'] {
        Some(LinkType::Absolute)
    } else {
        None
    }
}

/// The optimisation level that an `optimisationLevel` value names.
pub open spec fn level_named(s: Seq<char>) -> Option<OptimisationLevel> {
    if s == seq!['n', 'o', 'n', 'e'] {
        Some(OptimisationLevel::Off)
    } else if s == seq!['l', 'o', 'w'] {
        Some(OptimisationLevel::Low)
    } else if s == seq!['h', 'i', 'g', 'h'] {
        Some(OptimisationLevel::High)
    } else {
        None
    }
}

impl WingConfig {
    /// The defaults: no RSS, no sitemap, relative links, no optimisation, no scripts.
    pub open spec fn is_default(&self) -> bool {
        &&& !self.rss
        &&& !self.site_map
        &&& self.link_type == LinkType::Relative
        &&& self.optimisation_level == OptimisationLevel::Off
        &&& self.pre_scripts@.len() == 0
        &&& self.post_scripts@.len() == 0
    }

    /// `self` is what the configuration file `f` states, with the default of each
    /// field that `f` leaves out.
    pub open spec fn read_from(&self, f: &ConfigFile) -> bool {
        &&& self.rss == match f.rss { Some(b) => b, None => false }
        &&& self.site_map == match f.site_map { Some(b) => b, None => false }
        &&& match f.link_type {
            Some(s) => link_type_named(s@) == Some(self.link_type),
            None => self.link_type == LinkType::Relative,
        }
        &&& match f.optimisation_level {
            Some(s) => level_named(s@) == Some(self.optimisation_level),
            None => self.optimisation_level == OptimisationLevel::Off,
        }
        &&& self.pre_scripts.deep_view() == match f.pre_scripts {
            Some(v) => v.deep_view(),
            None => Seq::empty(),
        }
        &&& self.post_scripts.deep_view() == match f.post_scripts {
            Some(v) => v.deep_view(),
            None => Seq::empty(),
        }
    }

    /// Takes the configuration that the file `f` states, each absent field taking
    /// its default. Fails where a field names an unknown link type or level.
    pub fn from_file(f: ConfigFile) -> (r: Result<WingConfig, ConfigError>)
        ensures
            r matches Ok(c) ==> c.read_from(&f),
            r is Err <==> f.names_unknown_value(),
            r matches Err(e) ==> (e == ConfigError::UnknownLinkType <==> f.names_unknown_link_type()),
    {
        let ghost g = f;
        let link_type = match &f.link_type {
            None => LinkType::Relative,
            Some(s) => match parse_link_type(s.as_str()) {
                Some(t) => t,
                None => {
                    return Err(ConfigError::UnknownLinkType);
                },
            },
        };
        let optimisation_level = match &f.optimisation_level {
            None => OptimisationLevel::Off,
            Some(s) => match parse_level(s.as_str()) {
                Some(l) => l,
                None => {
                    return Err(ConfigError::UnknownOptimisationLevel);
                },
            },
        };
        let rss = match f.rss {
            Some(b) => b,
            None => false,
        };
        let site_map = match f.site_map {
            Some(b) => b,
            None => false,
        };
        let pre_scripts = match f.pre_scripts {
            Some(v) => v,
            None => Vec::new(),
        };
        let post_scripts = match f.post_scripts {
            Some(v) => v,
            None => Vec::new(),
        };
        let c = WingConfig { rss, site_map, link_type, optimisation_level, pre_scripts, post_scripts };
        assert(c.pre_scripts.deep_view() =~= match g.pre_scripts {
            Some(v) => v.deep_view(),
            None => Seq::empty(),
        });
        assert(c.post_scripts.deep_view() =~= match g.post_scripts {
            Some(v) => v.deep_view(),
            None => Seq::empty(),
        });
        Ok(c)
    }

    /// The configuration of a project: what its configuration file states, or
    /// the defaults where it has none (`None`) or the file is malformed.
    pub fn new(file: Option<ConfigFile>) -> (r: WingConfig)
        ensures
            match file {
                None => r.is_default(),
                Some(f) => if f.names_unknown_value() {
                    r.is_default()
                } else {
                    r.read_from(&f)
                },
            },
    {
        match file {
            None => WingConfig::default(),
            Some(f) => match WingConfig::from_file(f) {
                Ok(c) => c,
                Err(_) => WingConfig::default(),
            },
        }
    }
}

impl WingConfig {
    /// The configuration file that states `self`, every field written out.
    pub fn to_file(&self) -> (r: ConfigFile)
        ensures
            self.read_from(&r),
            r.rss is Some && r.site_map is Some && r.link_type is Some,
            r.optimisation_level is Some && r.pre_scripts is Some && r.post_scripts is Some,
    {
        let link_type = match self.link_type {
            LinkType::Relative => String::from_str("relative"),
            LinkType::Absolute => String::from_str("absolute"),
        };
        let level = match self.optimisation_level {
            OptimisationLevel::Off => String::from_str("none"),
            OptimisationLevel::Low => String::from_str("low"),
            OptimisationLevel::High => String::from_str("high"),
        };
        proof {
            reveal_strlit("relative");
            reveal_strlit("absolute");
            reveal_strlit("none");
            reveal_strlit("low");
            reveal_strlit("high");
            assert("relative"@ =~= seq!['r', 'e', 'l', 'a', 't', 'i', 'v', 'e']);
            assert("absolute"@ =~= seq!['a', 'b', 's', 'o', 'l', 'u', 't', 'e']);
            assert("none"@ =~= seq!['n', 'o', 'n', 'e']);
            assert("low"@ =~= seq!['l', 'o', 'w']);
            assert("high"@ =~= seq!['h', 'i', 'g', 'h']);
        }
        ConfigFile {
            rss: Some(self.rss),
            site_map: Some(self.site_map),
            link_type: Some(link_type),
            optimisation_level: Some(level),
            pre_scripts: Some(copy_texts(&self.pre_scripts)),
            post_scripts: Some(copy_texts(&self.post_scripts)),
        }
    }
}

/// Writing a configuration out and reading it back gives the same configuration.
pub proof fn lemma_config_round_trip(c: &WingConfig, f: &ConfigFile, d: &WingConfig)
    requires
        c.read_from(f),
        d.read_from(f),
    ensures
        d.rss == c.rss,
        d.site_map == c.site_map,
        d.link_type == c.link_type,
        d.optimisation_level == c.optimisation_level,
        d.pre_scripts.deep_view() == c.pre_scripts.deep_view(),
        d.post_scripts.deep_view() == c.post_scripts.deep_view(),
{
}

impl Default for WingConfig {
    fn default() -> (r: WingConfig)
        ensures
            r.is_default(),
    {
        WingConfig {
            rss: false,
            site_map: false,
            link_type: LinkType::Relative,
            optimisation_level: OptimisationLevel::Off,
            pre_scripts: Vec::new(),
            post_scripts: Vec::new(),
        }
    }
}

/// The link type that the text `s` names, if any.
pub fn parse_link_type(s: &str) -> (r: Option<LinkType>)
    ensures
        r == link_type_named(s@),
{
    proof {
        reveal_strlit("relative");
        reveal_strlit("absolute");
    }
    if text_eq(s, "relative") {
        assert("relative"@ =~= seq!['r', 'e', 'l', 'a', 't', 'i', 'v', 'e']);
        Some(LinkType::Relative)
    } else if text_eq(s, "absolute") {
        assert("absolute"@ =~= seq!['a', 'b', 's', 'o', 'l', 'u', 't', 'e']);
        assert(s@ != seq!['r', 'e', 'l', 'a', 't', 'i', 'v', 'e']);
        Some(LinkType::Absolute)
    } else {
        assert("relative"@ =~= seq!['r', 'e', 'l', 'a', 't', 'i', 'v', 'e']);
        assert("absolute"@ =~= seq!['a', 'b', 's', 'o', 'l', 'u', 't', 'e']);
        None
    }
}

/// The optimisation level that the text `s` names, if any.
pub fn parse_level(s: &str) -> (r: Option<OptimisationLevel>)
    ensures
        r == level_named(s@),
{
    proof {
        reveal_strlit("none");
        reveal_strlit("low");
        reveal_strlit("high");
        assert("none"@ =~= seq!['n', 'o', 'n', 'e']);
        assert("low"@ =~= seq!['l', 'o', 'w']);
        assert("high"@ =~= seq!['h', 'i', 'g', 'h']);
    }
    if text_eq(s, "none") {
        Some(OptimisationLevel::Off)
    } else if text_eq(s, "low") {
        Some(OptimisationLevel::Low)
    } else if text_eq(s, "high") {
        Some(OptimisationLevel::High)
    } else {
        None
    }
}

} // verus!
