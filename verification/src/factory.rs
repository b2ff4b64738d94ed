//! Resolution of a backend root to a backend operator.
//!
//! An [`OperatorFactory`] is a closed set of resolution strategies: the
//! built-in scheme registry, an explicit registry, a table of named
//! profiles, an ordered chain of strategies, and decoration of an inner
//! strategy with a transform. What a factory decides for a given root —
//! which construction to perform, with which configuration, or which error
//! to refuse with — is a pure function of the factory and the root
//! ([`spec_decide`]); only the final construction of the operator itself is
//! delegated to the storage crate.

use vstd::prelude::*;

use crate::backend::{
    failure_kind_of, failure_message, operator_from_config, operator_from_uri, registry_schemes,
    with_logging,
};
use crate::config::{ConfigMap, ProfileTable};
use crate::location::{
    check_has_uri_root, check_root_well_formed, has_uri_root, root_well_formed, scheme_of,
    uri_scheme,
};
use crate::outcome::{BackendFailure, FailureKind};
use crate::text::str_eq;

verus! {

/// A set of scheme names that a registry strategy recognizes.
pub struct SchemeRegistry {
    pub schemes: Vec<String>,
}

impl SchemeRegistry {
    /// Whether `scheme` is one of the registered scheme names.
    pub open spec fn spec_supports(&self, scheme: Seq<char>) -> bool {
        exists|i: int| 0 <= i < self.schemes@.len() && (#[trigger] self.schemes@[i])@ == scheme
    }

    /// An empty registry.
    pub fn new() -> (r: SchemeRegistry)
        ensures
            forall|s: Seq<char>| !r.spec_supports(s),
    {
        SchemeRegistry { schemes: Vec::new() }
    }

    /// The scheme set of the process-wide registry, as it stands now.
    pub fn process_wide() -> (r: SchemeRegistry) {
        SchemeRegistry { schemes: registry_schemes() }
    }

    /// Register one more scheme name.
    pub fn add(&mut self, scheme: String)
        ensures
            final(self).spec_supports(scheme@),
            forall|s: Seq<char>|
                final(self).spec_supports(s) == (old(self).spec_supports(s) || s == scheme@),
    {
        let ghost pre = self.schemes@;
        self.schemes.push(scheme);
        proof {
            assert forall|s: Seq<char>|
                self.spec_supports(s) == (old(self).spec_supports(s) || s == scheme@) by {
                if old(self).spec_supports(s) {
                    let i = choose|i: int| 0 <= i < pre.len() && (#[trigger] pre[i])@ == s;
                    assert(self.schemes@[i]@ == s);
                }
                if s == scheme@ {
                    assert(self.schemes@[pre.len() as int]@ == s);
                }
                if self.spec_supports(s) {
                    let i = choose|i: int|
                        0 <= i < self.schemes@.len() && (#[trigger] self.schemes@[i])@ == s;
                    if i < pre.len() {
                        assert(pre[i]@ == s);
                    }
                }
            }
        }
    }

    /// Decide whether `scheme` is registered.
    pub fn supports(&self, scheme: &str) -> (r: bool)
        ensures
            r == self.spec_supports(scheme@),
    {
        let n = self.schemes.len();
        let mut i: usize = 0;
        while i < n
            invariant
                0 <= i <= n,
                n == self.schemes@.len(),
                forall|j: int| 0 <= j < i ==> (#[trigger] self.schemes@[j])@ != scheme@,
            decreases n - i,
        {
            if str_eq(self.schemes[i].as_str(), scheme) {
                return true;
            }
            i += 1;
        }
        false
    }
}

/// A transform applied to a resolved operator by a decorating strategy.
#[derive(Clone, Copy, Debug, PartialEq, Eq, Structural)]
pub enum OperatorTransform {
    /// Wrap the operator so that every call is logged.
    Logging,
}

/// A resolution strategy for turning a backend root into an operator.
pub enum OperatorFactory {
    /// Look the root's scheme up in the built-in registry of known backend
    /// kinds (captured as a scheme set when the factory is built).
    Builtin(SchemeRegistry),
    /// Look the root's scheme up in a caller-supplied registry.
    Registry(SchemeRegistry),
    /// Treat the root's scheme position as a profile name and construct the
    /// backend kind the profile's `type` key names, configured with the
    /// profile's remaining keys.
    Profiles(ProfileTable),
    /// Try each strategy in order; skip to the next only when a strategy
    /// reports an unsupported scheme or profile, and stop on any other
    /// error.
    Chain(Vec<OperatorFactory>),
    /// Resolve with the inner strategy, then apply the transform to the
    /// resolved operator (errors pass through untouched).
    Custom(Box<OperatorFactory>, OperatorTransform),
}

/// A decision-stage refusal: why no construction was attempted.
#[derive(Clone, Copy, Debug, PartialEq, Eq, Structural)]
pub enum ResolveRefusal {
    /// No strategy recognizes the root; a chain uses this (and
    /// [`ResolveRefusal::ProfileNotFound`]) as its try-next signal.
    UnsupportedScheme,
    /// The profile strategy found no profile of the root's name.
    ProfileNotFound,
    /// The matched profile lacks the required `type` key.
    ProfileMissingType,
    /// The root has a `:` but is not in `scheme://` form.
    UriInvalid,
}

/// How resolution of a root fails, or how a request's location is refused
/// before resolution.
#[derive(Debug)]
pub enum ResolveError {
    /// The request's location is not in URI form (full-URI mode only).
    InvalidLocation,
    /// No strategy recognizes the root.
    UnsupportedScheme,
    /// The profile strategy found no profile of the root's name.
    ProfileNotFound,
    /// The matched profile lacks the required `type` key.
    ProfileMissingType,
    /// The root could not be parsed as a URI at all.
    UriInvalid,
    /// The backend kind rejected its configuration (an unknown kind string,
    /// or a missing or invalid field for that kind).
    ConfigInvalid { message: String },
}

/// The [`ResolveError`] a decision-stage refusal surfaces as.
pub open spec fn spec_refusal_error(r: ResolveRefusal) -> ResolveError {
    match r {
        ResolveRefusal::UnsupportedScheme => ResolveError::UnsupportedScheme,
        ResolveRefusal::ProfileNotFound => ResolveError::ProfileNotFound,
        ResolveRefusal::ProfileMissingType => ResolveError::ProfileMissingType,
        ResolveRefusal::UriInvalid => ResolveError::UriInvalid,
    }
}

/// What a factory decides for a root: either a construction to perform —
/// from the root URI itself, or from a profile's kind and configuration —
/// together with the transforms to apply, or a refusal.
pub enum Decision {
    FromUri { root: Seq<char>, transforms: Seq<OperatorTransform> },
    FromProfile {
        kind: Seq<char>,
        config: Map<Seq<char>, Seq<char>>,
        transforms: Seq<OperatorTransform>,
    },
    Refuse { error: ResolveRefusal },
}

/// A refusal on which a chain moves on to its next strategy: the strategy
/// merely does not know this scheme or profile.
pub open spec fn decision_is_skip(d: Decision) -> bool {
    match d {
        Decision::Refuse { error } => error == ResolveRefusal::UnsupportedScheme || error
            == ResolveRefusal::ProfileNotFound,
        _ => false,
    }
}

/// Append a transform to a successful decision; refusals pass through.
pub open spec fn add_transform(d: Decision, t: OperatorTransform) -> Decision {
    match d {
        Decision::FromUri { root, transforms } => Decision::FromUri {
            root,
            transforms: transforms.push(t),
        },
        Decision::FromProfile { kind, config, transforms } => Decision::FromProfile {
            kind,
            config,
            transforms: transforms.push(t),
        },
        Decision::Refuse { error } => Decision::Refuse { error },
    }
}

/// The registry strategies' decision: construct from the root URI when its
/// scheme is registered.
pub open spec fn registry_decision(reg: SchemeRegistry, root: Seq<char>) -> Decision {
    if !root_well_formed(root) {
        Decision::Refuse { error: ResolveRefusal::UriInvalid }
    } else if reg.spec_supports(uri_scheme(root)) {
        Decision::FromUri { root, transforms: Seq::empty() }
    } else {
        Decision::Refuse { error: ResolveRefusal::UnsupportedScheme }
    }
}

/// The profile strategy's decision: the root's scheme position names the
/// profile; the profile's `type` key names the backend kind, and its
/// remaining keys are the configuration.
pub open spec fn profiles_decision(tbl: ProfileTable, root: Seq<char>) -> Decision {
    if !has_uri_root(root) {
        Decision::Refuse { error: ResolveRefusal::UriInvalid }
    } else {
        match tbl.spec_get(uri_scheme(root)) {
            None => Decision::Refuse { error: ResolveRefusal::ProfileNotFound },
            Some(profile) => match profile.spec_get("type"@) {
                None => Decision::Refuse { error: ResolveRefusal::ProfileMissingType },
                Some(kind) => Decision::FromProfile {
                    kind,
                    config: profile.as_map().remove("type"@),
                    transforms: Seq::empty(),
                },
            },
        }
    }
}

/// The decision a factory makes for a backend root.
pub open spec fn spec_decide(f: OperatorFactory, root: Seq<char>) -> Decision
    decreases f, 1int,
{
    match f {
        OperatorFactory::Builtin(reg) => registry_decision(reg, root),
        OperatorFactory::Registry(reg) => registry_decision(reg, root),
        OperatorFactory::Profiles(tbl) => profiles_decision(tbl, root),
        OperatorFactory::Chain(list) => chain_decision(list@, root),
        OperatorFactory::Custom(inner, t) => add_transform(spec_decide(*inner, root), t),
    }
}

/// A chain's decision: the first sub-decision that is not a skip; when
/// every strategy skips (or the chain is empty), an unsupported-scheme
/// refusal.
pub open spec fn chain_decision(elems: Seq<OperatorFactory>, root: Seq<char>) -> Decision
    decreases elems, 0int,
{
    if elems.len() == 0 {
        Decision::Refuse { error: ResolveRefusal::UnsupportedScheme }
    } else {
        let first = spec_decide(elems[0], root);
        if decision_is_skip(first) {
            chain_decision(elems.drop_first(), root)
        } else {
            first
        }
    }
}

impl OperatorFactory {
    /// The profile tables inside the factory are well formed.
    pub open spec fn wf(&self) -> bool
        decreases self,
    {
        match self {
            OperatorFactory::Builtin(_) => true,
            OperatorFactory::Registry(_) => true,
            OperatorFactory::Profiles(tbl) => tbl.wf(),
            OperatorFactory::Chain(list) => forall|i: int|
                0 <= i < list@.len() ==> (#[trigger] list@[i]).wf(),
            OperatorFactory::Custom(inner, _) => inner.wf(),
        }
    }

    /// The built-in strategy, with the scheme set the process-wide registry
    /// knows at this moment.
    pub fn builtin() -> (r: OperatorFactory)
        ensures
            r.wf(),
            r matches OperatorFactory::Builtin(_),
    {
        OperatorFactory::Builtin(SchemeRegistry::process_wide())
    }
}

/// The construction a successful decision calls for.
pub enum ConstructionSource {
    /// Construct through the registry from the root URI itself.
    FromUri(String),
    /// Construct the named backend kind from a profile's configuration.
    FromProfile { kind: String, config: ConfigMap },
}

/// A successful decision, ready to execute: the construction source and
/// the transforms to apply to the constructed operator, innermost first.
pub struct ConstructionPlan {
    pub source: ConstructionSource,
    pub transforms: Vec<OperatorTransform>,
}

impl ConstructionPlan {
    /// The decision this plan carries out.
    pub open spec fn as_decision(&self) -> Decision {
        match self.source {
            ConstructionSource::FromUri(root) => Decision::FromUri {
                root: root@,
                transforms: self.transforms@,
            },
            ConstructionSource::FromProfile { kind, config } => Decision::FromProfile {
                kind: kind@,
                config: config.as_map(),
                transforms: self.transforms@,
            },
        }
    }
}

/// Skipped strategies do not change a chain's decision.
pub proof fn lemma_chain_skip_prefix(elems: Seq<OperatorFactory>, root: Seq<char>, i: int)
    requires
        0 <= i <= elems.len(),
        forall|j: int| 0 <= j < i ==> decision_is_skip(spec_decide(#[trigger] elems[j], root)),
    ensures
        chain_decision(elems, root) == chain_decision(elems.subrange(i, elems.len() as int), root),
    decreases i,
{
    if i > 0 {
        lemma_chain_skip_prefix(elems, root, i - 1);
        let tail = elems.subrange(i - 1, elems.len() as int);
        assert(tail[0] == elems[i - 1]);
        assert(tail.drop_first() =~= elems.subrange(i, elems.len() as int));
    } else {
        assert(elems.subrange(0, elems.len() as int) =~= elems);
    }
}

/// A chain in which every strategy skips refuses with unsupported scheme
/// (chain fallback exhaustion).
pub proof fn lemma_chain_exhausted(elems: Seq<OperatorFactory>, root: Seq<char>)
    requires
        forall|j: int|
            0 <= j < elems.len() ==> decision_is_skip(spec_decide(#[trigger] elems[j], root)),
    ensures
        chain_decision(elems, root) == (Decision::Refuse {
            error: ResolveRefusal::UnsupportedScheme,
        }),
{
    lemma_chain_skip_prefix(elems, root, elems.len() as int);
    assert(elems.subrange(elems.len() as int, elems.len() as int).len() == 0);
}

/// Chain fallback order: the chain's decision is the first strategy's
/// decision that is not a skip.
pub proof fn lemma_chain_first_match(elems: Seq<OperatorFactory>, root: Seq<char>, i: int)
    requires
        0 <= i < elems.len(),
        forall|j: int| 0 <= j < i ==> decision_is_skip(spec_decide(#[trigger] elems[j], root)),
        !decision_is_skip(spec_decide(elems[i], root)),
    ensures
        chain_decision(elems, root) == spec_decide(elems[i], root),
{
    lemma_chain_skip_prefix(elems, root, i);
    let tail = elems.subrange(i, elems.len() as int);
    assert(tail[0] == elems[i]);
}

/// Compute the decision a factory makes for a root.
///
/// Returns the construction plan the factory calls for, or the refusal;
/// either way the result is exactly [`spec_decide`].
pub fn decide(f: &OperatorFactory, root: &str) -> (r: Result<ConstructionPlan, ResolveRefusal>)
    requires
        f.wf(),
    ensures
        match r {
            Ok(plan) => plan.as_decision() == spec_decide(*f, root@),
            Err(refusal) => spec_decide(*f, root@) == (Decision::Refuse { error: refusal }),
        },
    decreases *f,
{
    match f {
        OperatorFactory::Builtin(reg) => decide_registry(reg, root),
        OperatorFactory::Registry(reg) => decide_registry(reg, root),
        OperatorFactory::Profiles(tbl) => decide_profiles(tbl, root),
        OperatorFactory::Chain(list) => {
            let n = list.len();
            let mut i: usize = 0;
            while i < n
                invariant
                    0 <= i <= n,
                    n == list@.len(),
                    f.wf(),
                    *f == OperatorFactory::Chain(*list),
                    forall|j: int|
                        0 <= j < i ==> decision_is_skip(spec_decide(#[trigger] list@[j], root@)),
                decreases n - i,
            {
                assert(list@[i as int].wf());
                match decide(&list[i], root) {
                    Ok(plan) => {
                        proof {
                            lemma_chain_first_match(list@, root@, i as int);
                        }
                        return Ok(plan);
                    },
                    Err(refusal) => {
                        if matches!(refusal, ResolveRefusal::UnsupportedScheme)
                            || matches!(refusal, ResolveRefusal::ProfileNotFound) {
                        } else {
                            proof {
                                lemma_chain_first_match(list@, root@, i as int);
                            }
                            return Err(refusal);
                        }
                    },
                }
                i += 1;
            }
            proof {
                lemma_chain_exhausted(list@, root@);
            }
            Err(ResolveRefusal::UnsupportedScheme)
        },
        OperatorFactory::Custom(inner, t) => {
            match decide(inner, root) {
                Ok(mut plan) => {
                    plan.transforms.push(*t);
                    Ok(plan)
                },
                Err(refusal) => Err(refusal),
            }
        },
    }
}

/// The registry strategies' decision, executed.
fn decide_registry(reg: &SchemeRegistry, root: &str) -> (r: Result<
    ConstructionPlan,
    ResolveRefusal,
>)
    ensures
        match r {
            Ok(plan) => plan.as_decision() == registry_decision(*reg, root@),
            Err(refusal) => registry_decision(*reg, root@) == (Decision::Refuse { error: refusal }),
        },
{
    if !check_root_well_formed(root) {
        return Err(ResolveRefusal::UriInvalid);
    }
    let scheme = scheme_of(root);
    if reg.supports(scheme.as_str()) {
        Ok(
            ConstructionPlan {
                source: ConstructionSource::FromUri(root.to_owned()),
                transforms: Vec::new(),
            },
        )
    } else {
        Err(ResolveRefusal::UnsupportedScheme)
    }
}

/// The profile strategy's decision, executed.
fn decide_profiles(tbl: &ProfileTable, root: &str) -> (r: Result<ConstructionPlan, ResolveRefusal>)
    requires
        tbl.wf(),
    ensures
        match r {
            Ok(plan) => plan.as_decision() == profiles_decision(*tbl, root@),
            Err(refusal) => profiles_decision(*tbl, root@) == (Decision::Refuse { error: refusal }),
        },
{
    if !check_has_uri_root(root) {
        return Err(ResolveRefusal::UriInvalid);
    }
    let name = scheme_of(root);
    let profile = match tbl.get(name.as_str()) {
        None => {
            return Err(ResolveRefusal::ProfileNotFound);
        },
        Some(p) => p,
    };
    let kind = match profile.get("type") {
        None => {
            return Err(ResolveRefusal::ProfileMissingType);
        },
        Some(k) => k.clone(),
    };
    let config = profile.removed("type");
    proof {
        assert(config.as_map() =~= profile.as_map().remove("type"@));
    }
    Ok(
        ConstructionPlan {
            source: ConstructionSource::FromProfile { kind, config },
            transforms: Vec::new(),
        },
    )
}

/// The error a decision-stage refusal surfaces as.
pub fn refusal_error(r: ResolveRefusal) -> (e: ResolveError)
    ensures
        e == spec_refusal_error(r),
{
    match r {
        ResolveRefusal::UnsupportedScheme => ResolveError::UnsupportedScheme,
        ResolveRefusal::ProfileNotFound => ResolveError::ProfileNotFound,
        ResolveRefusal::ProfileMissingType => ResolveError::ProfileMissingType,
        ResolveRefusal::UriInvalid => ResolveError::UriInvalid,
    }
}

/// Apply one transform to a resolved operator.
fn apply_transform(op: opendal::Operator, t: &OperatorTransform) -> opendal::Operator {
    match t {
        OperatorTransform::Logging => with_logging(op),
    }
}

/// Resolve a backend root to an operator.
///
/// The decision — which strategy matches, which construction is attempted,
/// and every decision-stage refusal — is exactly [`spec_decide`]; only the
/// backend's own acceptance of the construction is left open. When the
/// decision refuses, the matching error is returned. When it calls for a
/// construction, the operator is constructed and the decision's transforms
/// are applied; a construction the registry refuses as unsupported surfaces
/// as [`ResolveError::UnsupportedScheme`], and any other construction
/// failure as [`ResolveError::ConfigInvalid`] with the backend's message.
pub fn resolve(f: &OperatorFactory, root: &str) -> (r: Result<opendal::Operator, ResolveError>)
    requires
        f.wf(),
    ensures
        ({
            let d = spec_decide(*f, root@);
            match r {
                Ok(_) => !(d matches Decision::Refuse { .. }),
                Err(e) => match d {
                    Decision::Refuse { error } => e == spec_refusal_error(error),
                    Decision::FromUri { .. } => e matches ResolveError::UnsupportedScheme || e matches
                        ResolveError::ConfigInvalid { .. },
                    Decision::FromProfile { .. } => e matches ResolveError::ConfigInvalid { .. },
                },
            }
        }),
{
    let plan = match decide(f, root) {
        Err(refusal) => {
            return Err(refusal_error(refusal));
        },
        Ok(plan) => plan,
    };
    let constructed = match &plan.source {
        ConstructionSource::FromUri(uri) => operator_from_uri(uri.as_str()),
        ConstructionSource::FromProfile { kind, config } => operator_from_config(
            kind.as_str(),
            config,
        ),
    };
    let mut op = match constructed {
        Err(e) => {
            let unsupported = matches!(failure_kind_of(&e), FailureKind::Unsupported);
            let from_uri = matches!(&plan.source, ConstructionSource::FromUri(_));
            if unsupported && from_uri {
                return Err(ResolveError::UnsupportedScheme);
            }
            return Err(ResolveError::ConfigInvalid { message: failure_message(&e) });
        },
        Ok(op) => op,
    };
    let n = plan.transforms.len();
    let mut i: usize = 0;
    while i < n
        invariant
            0 <= i <= n,
            n == plan.transforms@.len(),
        decreases n - i,
    {
        op = apply_transform(op, &plan.transforms[i]);
        i += 1;
    }
    Ok(op)
}

/// A decorating factory: resolves with an inner factory and applies a
/// transform to every resolved operator.
pub struct LambdaOperatorFactory {
    pub inner: OperatorFactory,
    pub transform: OperatorTransform,
}

impl LambdaOperatorFactory {
    /// Wrap `inner` so that `transform` is applied to every operator it
    /// resolves.
    pub fn new(inner: OperatorFactory, transform: OperatorTransform) -> (r: LambdaOperatorFactory)
        ensures
            r.inner == inner,
            r.transform == transform,
    {
        LambdaOperatorFactory { inner, transform }
    }

    /// Resolve through the inner factory, then apply the transform; errors
    /// pass through untouched, with the inner factory's exact decision.
    pub fn load(&self, uri: &str) -> (r: Result<opendal::Operator, ResolveError>)
        requires
            self.inner.wf(),
        ensures
            ({
                let d = spec_decide(self.inner, uri@);
                match r {
                    Ok(_) => !(d matches Decision::Refuse { .. }),
                    Err(e) => match d {
                        Decision::Refuse { error } => e == spec_refusal_error(error),
                        Decision::FromUri { .. } => e matches ResolveError::UnsupportedScheme || e
                            matches ResolveError::ConfigInvalid { .. },
                        Decision::FromProfile { .. } => e matches ResolveError::ConfigInvalid {
                            ..
                        },
                    },
                }
            }),
    {
        match resolve(&self.inner, uri) {
            Ok(op) => Ok(apply_transform(op, &self.transform)),
            Err(e) => Err(e),
        }
    }
}

impl ResolveError {
    /// The backend-failure view of a resolution error. Resolution errors
    /// are deterministic misconfiguration, never transient: unsupported
    /// schemes and unknown profiles read as unsupported, a malformed root
    /// or a type-less profile as unexpected, and a rejected construction
    /// as invalid configuration with the backend's message.
    pub fn into_failure(self) -> (f: BackendFailure)
        ensures
            !f.transient,
            match self {
                ResolveError::InvalidLocation => f.kind == FailureKind::Unexpected && f.message@
                    == "invalid location"@,
                ResolveError::UnsupportedScheme => f.kind == FailureKind::Unsupported
                    && f.message@ == "unsupported uri"@,
                ResolveError::ProfileNotFound => f.kind == FailureKind::Unsupported && f.message@
                    == "profile not found"@,
                ResolveError::ProfileMissingType => f.kind == FailureKind::Unexpected && f.message@
                    == "missing 'type' in profile"@,
                ResolveError::UriInvalid => f.kind == FailureKind::Unexpected && f.message@
                    == "failed to parse uri"@,
                ResolveError::ConfigInvalid { message } => f.kind == FailureKind::ConfigInvalid
                    && f.message == message,
            },
    {
        match self {
            ResolveError::InvalidLocation => BackendFailure {
                kind: FailureKind::Unexpected,
                transient: false,
                message: "invalid location".to_owned(),
            },
            ResolveError::UnsupportedScheme => BackendFailure {
                kind: FailureKind::Unsupported,
                transient: false,
                message: "unsupported uri".to_owned(),
            },
            ResolveError::ProfileNotFound => BackendFailure {
                kind: FailureKind::Unsupported,
                transient: false,
                message: "profile not found".to_owned(),
            },
            ResolveError::ProfileMissingType => BackendFailure {
                kind: FailureKind::Unexpected,
                transient: false,
                message: "missing 'type' in profile".to_owned(),
            },
            ResolveError::UriInvalid => BackendFailure {
                kind: FailureKind::Unexpected,
                transient: false,
                message: "failed to parse uri".to_owned(),
            },
            ResolveError::ConfigInvalid { message } => BackendFailure {
                kind: FailureKind::ConfigInvalid,
                transient: false,
                message,
            },
        }
    }
}

/// Profile resolution succeeds for every registered profile: for any root
/// in URI form whose scheme position names a profile that carries a `type`
/// key, the profile strategy decides to construct exactly that backend
/// kind, configured with the profile's remaining keys — whatever other
/// keys the profile holds.
pub proof fn lemma_profiles_registered(tbl: ProfileTable, root: Seq<char>, profile: ConfigMap, kind: Seq<char>)
    requires
        has_uri_root(root),
        tbl.spec_get(uri_scheme(root)) == Some(profile),
        profile.spec_get("type"@) == Some(kind),
    ensures
        spec_decide(OperatorFactory::Profiles(tbl), root) == (Decision::FromProfile {
            kind,
            config: profile.as_map().remove("type"@),
            transforms: Seq::<OperatorTransform>::empty(),
        }),
{
}

} // verus!
