//! Shared logic of the parameter-store commands: the path prefix that every
//! stored name lives under, stripping that prefix on the way out, and the
//! paging of the listing call.  Callers never see the prefix: it is added
//! on write and removed on read.
use vstd::prelude::*;

use crate::command::error::CommandError;
use crate::config::command::ParamsConfig;
use crate::text;

verus! {

/// One stored parameter, as the parameter store reports it.
#[derive(Debug, Clone, PartialEq)]
pub struct Parameter {
    pub name: Option<String>,
    pub value: Option<String>,
}

/// The configured path prefix, normalized: a leading slash is always added
/// when missing, and a trailing slash is added when asked for.
pub open spec fn spec_path(path: Seq<char>, with_trailing_slash: bool) -> Seq<char> {
    let with_trail = if with_trailing_slash && !text::spec_has_suffix(path, "/"@) {
        path + "/"@
    } else {
        path
    };
    if !text::spec_has_prefix(with_trail, "/"@) {
        "/"@ + with_trail
    } else {
        with_trail
    }
}

/// The full stored name of a parameter: the normalized prefix, trailing
/// slash included, followed by the bare name.
pub open spec fn spec_name_with_path(path: Seq<char>, name: Seq<char>) -> Seq<char> {
    spec_path(path, true) + name
}

/// A stored name with every leading copy of the prefix removed.
pub open spec fn spec_strip_prefix(s: Seq<char>, prefix: Seq<char>) -> Seq<char>
    decreases s.len(),
{
    if prefix.len() > 0 && text::spec_has_prefix(s, prefix) {
        spec_strip_prefix(s.subrange(prefix.len() as int, s.len() as int), prefix)
    } else {
        s
    }
}

/// Normalizes the configured path prefix.
pub fn path(config: &ParamsConfig, with_trailing_slash: bool) -> (r: String)
    ensures
        r@ == spec_path(config.path@, with_trailing_slash),
{
    let mut p = config.path.clone();
    if with_trailing_slash && !text::has_suffix(p.as_str(), "/") {
        p.append("/");
    }
    if !text::has_prefix(p.as_str(), "/") {
        let mut q = "/".to_owned();
        q.append(p.as_str());
        q
    } else {
        p
    }
}

/// The full stored name of one bare parameter name.
pub fn name_with_path(config: &ParamsConfig, name: &str) -> (r: String)
    ensures
        r@ == spec_name_with_path(config.path@, name@),
{
    let mut p = path(config, true);
    p.append(name);
    p
}

/// Strips the configured prefix off a stored name.  A name that does not
/// start with the prefix is the `Unknown` error.
pub fn strip_path<'a>(config: &ParamsConfig, name: &'a str) -> (r: Result<&'a str, CommandError>)
    ensures
        r matches Ok(s) ==> text::spec_has_prefix(name@, spec_path(config.path@, true)) && s@
            == spec_strip_prefix(name@, spec_path(config.path@, true)),
        r is Err ==> !text::spec_has_prefix(name@, spec_path(config.path@, true)),
        r matches Err(e) ==> e is Unknown,
{
    let p = path(config, true);
    let plen = p.as_str().unicode_len();
    if !text::has_prefix(name, p.as_str()) {
        return Err(CommandError::Unknown);
    }
    let mut rest: &'a str = name;
    while plen > 0 && text::has_prefix(rest, p.as_str())
        invariant
            plen == p@.len(),
            p@ == spec_path(config.path@, true),
            spec_strip_prefix(rest@, p@) == spec_strip_prefix(name@, p@),
        decreases rest@.len(),
    {
        let restlen = rest.unicode_len();
        rest = rest.substring_char(plen, restlen);
    }
    Ok(rest)
}

/// Whether reads should ask the store to decrypt: exactly when an
/// encryption key is configured.
pub fn with_decryption(config: &ParamsConfig) -> (r: bool)
    ensures
        r == (config.secure is Some),
{
    match &config.secure {
        Some(_) => true,
        None => false,
    }
}

/// The phase of the listing pager.
#[derive(Debug, Clone, Copy, PartialEq, Eq, Structural)]
pub enum PagerPhase {
    Init,
    Fetching,
    Done,
}

/// One answer of the paged listing call: the page's parameters and the
/// token of the next page, if there is one.
#[derive(Debug, Clone, PartialEq)]
pub enum PagerEvent {
    Start,
    PageReceived { parameters: Option<Vec<Parameter>>, next_token: Option<String> },
}

/// What the pager asks for next.  A fetch names the page token to pass on,
/// none for the first page.
#[derive(Debug, Clone, PartialEq)]
pub enum PagerAction {
    FetchPage { next_token: Option<String> },
    Finished,
}

/// Collects every page of the parameters under the configured path: keeps
/// fetching while the store hands back a continuation token, accumulating
/// the parameters of every page in order.
#[derive(Debug, Clone, PartialEq)]
pub struct ParamsPager {
    pub config: ParamsConfig,
    pub phase: PagerPhase,
    /// Every parameter received so far, in arrival order.
    pub parameters: Vec<Parameter>,
}

/// Which events answer which phase.
pub open spec fn spec_pager_expects(phase: PagerPhase, event: PagerEvent) -> bool {
    match phase {
        PagerPhase::Init => event is Start,
        PagerPhase::Fetching => event is PageReceived,
        PagerPhase::Done => false,
    }
}

/// The parameters of one page, empty when the answer carried none.
pub open spec fn spec_page_parameters(parameters: Option<Vec<Parameter>>) -> Seq<Parameter> {
    match parameters {
        Some(ps) => ps@,
        None => Seq::empty(),
    }
}

impl ParamsPager {
    /// A fresh pager for the configured path.
    pub fn new(config: ParamsConfig) -> (p: ParamsPager)
        ensures
            p.config == config,
            p.phase == PagerPhase::Init,
            p.parameters@.len() == 0,
    {
        ParamsPager { config, phase: PagerPhase::Init, parameters: Vec::new() }
    }

    /// Whether every page has been collected.
    pub fn is_done(&self) -> (r: bool)
        ensures
            r == (self.phase is Done),
    {
        match self.phase {
            PagerPhase::Done => true,
            _ => false,
        }
    }

    /// Feeds one page in and asks for the next one, or reports completion
    /// when the store handed no continuation token back.  The received
    /// parameters are appended, in order, to everything collected so far.
    pub fn step(&mut self, event: PagerEvent) -> (r: PagerAction)
        requires
            spec_pager_expects(old(self).phase, event),
        ensures
            final(self).config == old(self).config,
            match event {
                PagerEvent::Start => final(self).parameters == old(self).parameters && r
                    == (PagerAction::FetchPage { next_token: None::<String> }) && final(self).phase
                    is Fetching,
                PagerEvent::PageReceived { parameters, next_token } => {
                    &&& final(self).parameters@ == old(self).parameters@ + spec_page_parameters(
                        parameters,
                    )
                    &&& match next_token {
                        Some(t) => r == (PagerAction::FetchPage { next_token: Some(t) })
                            && final(self).phase is Fetching,
                        None => r == PagerAction::Finished && final(self).phase is Done,
                    }
                },
            },
    {
        match event {
            PagerEvent::Start => {
                self.phase = PagerPhase::Fetching;
                PagerAction::FetchPage { next_token: None }
            },
            PagerEvent::PageReceived { parameters, next_token } => {
                match parameters {
                    Some(mut ps) => {
                        self.parameters.append(&mut ps);
                    },
                    None => {
                        proof {
                            assert(self.parameters@ =~= old(self).parameters@
                                + Seq::<Parameter>::empty());
                        }
                    },
                }
                match next_token {
                    Some(t) => {
                        self.phase = PagerPhase::Fetching;
                        PagerAction::FetchPage { next_token: Some(t) }
                    },
                    None => {
                        self.phase = PagerPhase::Done;
                        PagerAction::Finished
                    },
                }
            },
        }
    }
}

/// The name and value pairs of the listed parameters, prefix stripped, in
/// order; entries missing a name or a value are passed over, and a name
/// outside the configured path prefix fails the whole listing.
pub open spec fn spec_stripped_pairs(ps: Seq<Parameter>, prefix: Seq<char>) -> Result<
    Seq<(Seq<char>, Seq<char>)>,
    CommandError,
>
    decreases ps.len(),
{
    if ps.len() == 0 {
        Ok(Seq::empty())
    } else {
        match spec_stripped_pairs(ps.drop_last(), prefix) {
            Err(e) => Err(e),
            Ok(init) => {
                let p = ps.last();
                match (p.name, p.value) {
                    (Some(n), Some(v)) => if text::spec_has_prefix(n@, prefix) {
                        Ok(init.push((spec_strip_prefix(n@, prefix), v@)))
                    } else {
                        Err(CommandError::Unknown)
                    },
                    _ => Ok(init),
                }
            },
        }
    }
}

/// The name and value pairs of the listed parameters, prefix stripped, in
/// order; entries missing a name or a value, and names outside the
/// configured path prefix, are passed over.
pub open spec fn spec_stripped_pairs_lenient(ps: Seq<Parameter>, prefix: Seq<char>) -> Seq<
    (Seq<char>, Seq<char>),
>
    decreases ps.len(),
{
    if ps.len() == 0 {
        Seq::empty()
    } else {
        let init = spec_stripped_pairs_lenient(ps.drop_last(), prefix);
        let p = ps.last();
        match (p.name, p.value) {
            (Some(n), Some(v)) => if text::spec_has_prefix(n@, prefix) {
                init.push((spec_strip_prefix(n@, prefix), v@))
            } else {
                init
            },
            _ => init,
        }
    }
}

/// The deep view of a list of name and value pairs.
pub open spec fn spec_pairs_view(pairs: Seq<(String, String)>) -> Seq<(Seq<char>, Seq<char>)> {
    pairs.map_values(|p: (String, String)| (p.0@, p.1@))
}

proof fn lemma_stripped_pairs_err_extends(ps: Seq<Parameter>, prefix: Seq<char>, j: int)
    requires
        0 <= j <= ps.len(),
        spec_stripped_pairs(ps.subrange(0, j), prefix) == Err::<
            Seq<(Seq<char>, Seq<char>)>,
            CommandError,
        >(CommandError::Unknown),
    ensures
        spec_stripped_pairs(ps, prefix) == Err::<Seq<(Seq<char>, Seq<char>)>, CommandError>(
            CommandError::Unknown,
        ),
    decreases ps.len() - j,
{
    if j < ps.len() {
        assert(ps.subrange(0, j + 1).drop_last() =~= ps.subrange(0, j));
        lemma_stripped_pairs_err_extends(ps, prefix, j + 1);
    } else {
        assert(ps.subrange(0, ps.len() as int) =~= ps);
    }
}

/// Strips the prefix off every listed parameter, failing on any name
/// outside the configured path.
pub fn stripped_pairs(config: &ParamsConfig, params: &Vec<Parameter>) -> (r: Result<
    Vec<(String, String)>,
    CommandError,
>)
    ensures
        r matches Ok(pairs) ==> spec_stripped_pairs(params@, spec_path(config.path@, true))
            matches Ok(s) && spec_pairs_view(pairs@) == s,
        r matches Err(e) ==> spec_stripped_pairs(params@, spec_path(config.path@, true))
            == Err::<Seq<(Seq<char>, Seq<char>)>, CommandError>(e),
{
    let mut pairs: Vec<(String, String)> = Vec::new();
    let mut i: usize = 0;
    while i < params.len()
        invariant
            0 <= i <= params@.len(),
            spec_stripped_pairs(params@.subrange(0, i as int), spec_path(config.path@, true))
                matches Ok(s) && spec_pairs_view(pairs@) == s,
        decreases params@.len() - i,
    {
        let ghost prefix = spec_path(config.path@, true);
        proof {
            assert(params@.subrange(0, i + 1).drop_last() =~= params@.subrange(0, i as int));
            assert(params@.subrange(0, i + 1).last() == params@[i as int]);
        }
        let p = &params[i];
        match (&p.name, &p.value) {
            (Some(n), Some(v)) => {
                match strip_path(config, n.as_str()) {
                    Ok(stripped) => {
                        pairs.push((stripped.to_owned(), v.clone()));
                        proof {
                            assert(spec_pairs_view(pairs@) =~= spec_stripped_pairs(
                                params@.subrange(0, i + 1),
                                prefix,
                            ).unwrap());
                        }
                    },
                    Err(e) => {
                        proof {
                            assert(spec_stripped_pairs(params@.subrange(0, i + 1), prefix)
                                == Err::<Seq<(Seq<char>, Seq<char>)>, CommandError>(
                                CommandError::Unknown,
                            ));
                            lemma_stripped_pairs_err_extends(params@, prefix, i + 1);
                        }
                        return Err(e);
                    },
                }
            },
            _ => (),
        }
        i = i + 1;
    }
    proof {
        assert(params@.subrange(0, params@.len() as int) =~= params@);
    }
    Ok(pairs)
}

/// Strips the prefix off every listed parameter, passing over entries that
/// are incomplete or outside the configured path.
pub fn stripped_pairs_lenient(config: &ParamsConfig, params: &Vec<Parameter>) -> (r: Vec<
    (String, String),
>)
    ensures
        spec_pairs_view(r@) == spec_stripped_pairs_lenient(params@, spec_path(config.path@, true)),
{
    let mut pairs: Vec<(String, String)> = Vec::new();
    let mut i: usize = 0;
    while i < params.len()
        invariant
            0 <= i <= params@.len(),
            spec_pairs_view(pairs@) == spec_stripped_pairs_lenient(
                params@.subrange(0, i as int),
                spec_path(config.path@, true),
            ),
        decreases params@.len() - i,
    {
        let ghost prefix = spec_path(config.path@, true);
        proof {
            assert(params@.subrange(0, i + 1).drop_last() =~= params@.subrange(0, i as int));
            assert(params@.subrange(0, i + 1).last() == params@[i as int]);
        }
        let p = &params[i];
        match (&p.name, &p.value) {
            (Some(n), Some(v)) => {
                match strip_path(config, n.as_str()) {
                    Ok(stripped) => {
                        pairs.push((stripped.to_owned(), v.clone()));
                        proof {
                            assert(spec_pairs_view(pairs@) =~= spec_stripped_pairs_lenient(
                                params@.subrange(0, i + 1),
                                prefix,
                            ));
                        }
                    },
                    Err(_) => (),
                }
            },
            _ => (),
        }
        i = i + 1;
    }
    proof {
        assert(params@.subrange(0, params@.len() as int) =~= params@);
    }
    pairs
}

} // verus!
