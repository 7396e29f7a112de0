use vstd::prelude::*;

verus! {

/// Role of a zone.
#[derive(Clone, Copy, Debug, PartialEq, Eq, Structural)]
pub enum ZoneType {
    Primary,
    Secondary,
    External,
}

/// One declared backend store of a zone, with its kind-specific fields.
#[derive(Clone, Debug)]
pub enum StoreSpec {
    /// Records read from a zone file.
    File { zone_file_path: String },
    /// A zone file with a journal that persists dynamic updates.
    TransactionalFile { zone_file_path: String, journal_file_path: String, allow_update: bool },
    /// Queries forwarded to upstream name servers.
    Forward { name_servers: Vec<String> },
    /// Queries resolved recursively from root hints.
    Recursive { roots: String },
    /// Answers that block names read from lists.
    Blocklist { lists: Vec<String> },
}

/// Whether a backend of this kind can hold signing keys and sign its zone.
pub open spec fn store_signable(s: StoreSpec) -> bool {
    s is File || s is TransactionalFile
}

/// One key declared for a zone.
#[derive(Clone, Debug)]
pub struct KeySpec {
    pub key_path: String,
    pub is_zone_signing_key: bool,
    pub is_zone_update_auth: bool,
}

/// One configured zone.
#[derive(Clone, Debug)]
pub struct ZoneSpec {
    pub name: String,
    pub zone_type: ZoneType,
    /// Top-level zone file path, the older way to name a file store.
    pub file: Option<String>,
    pub stores: Vec<StoreSpec>,
    pub allow_axfr: bool,
    /// Top-level update flag, the older way to ask for a journaled store.
    pub allow_update: bool,
    pub enable_dnssec: bool,
    pub keys: Vec<KeySpec>,
}

/// Where the authority of one resolved store comes from.
#[derive(Clone, Copy, Debug, PartialEq, Eq, Structural)]
pub enum Backend {
    /// The declared store at this index.
    Declared(usize),
    /// A plain file store made from the top-level file path.
    LegacyFile,
    /// A journaled store made from the top-level file path and update flag.
    LegacyJournal,
}

/// One authority to construct, and whether keys are provisioned for it.
#[derive(Clone, Copy, Debug, PartialEq, Eq, Structural)]
pub struct ResolvedStore {
    pub backend: Backend,
    pub sign: bool,
}

/// Configuration shapes that are accepted with a warning.
#[derive(Clone, Copy, Debug, PartialEq, Eq, Structural)]
pub enum ZoneWarning {
    /// The top-level update flag is set beside declared stores.
    UpdateFlagMisplaced,
    /// The top-level file path is ignored in favour of the declared store at this index.
    LegacyFileIgnored(usize),
    /// A journaled store is made from the deprecated top-level shape.
    LegacyJournalDeprecated,
}

/// Why a zone could not be resolved.
#[derive(Clone, Copy, Debug, PartialEq, Eq, Structural)]
pub enum ZoneError {
    /// No store is declared and no top-level file path is set.
    MissingZoneFile,
}

/// The authorities to construct for a zone, in order, and what to warn about.
#[derive(Clone, Debug)]
pub struct ZonePlan {
    pub stores: Vec<ResolvedStore>,
    pub warnings: Vec<ZoneWarning>,
    /// Journal path of a store made from the top-level shape.
    pub journal_file_path: Option<String>,
}

/// A zone plan as sequences and strings as character sequences.
pub struct ZonePlanView {
    pub stores: Seq<ResolvedStore>,
    pub warnings: Seq<ZoneWarning>,
    pub journal_file_path: Option<Seq<char>>,
}

impl View for ZonePlan {
    type V = ZonePlanView;

    open spec fn view(&self) -> ZonePlanView {
        ZonePlanView {
            stores: self.stores@,
            warnings: self.warnings@,
            journal_file_path: match self.journal_file_path {
                Some(p) => Some(p@),
                None => None,
            },
        }
    }
}

/// Extension of a journal file.
pub open spec fn journal_ext() -> Seq<char> {
    "jrnl"@
}

/// The path `path` with its extension replaced by `ext`.
pub uninterp spec fn path_with_extension(path: Seq<char>, ext: Seq<char>) -> Seq<char>;

/// Relies on `std::path::Path::with_extension` for the replaced path, which
/// panics on an extension that holds a path separator. The path and the
/// extension are unicode, so `to_str` of the result is `Some`.
#[verifier::external_body]
fn with_extension(path: &str, ext: &str) -> (r: Option<String>)
    requires
        !ext@.contains('/'),
        !ext@.contains('\\'),
    ensures
        r is Some,
        r->Some_0@ == path_with_extension(path@, ext@),
{
    std::path::Path::new(path).with_extension(ext).to_str().map(String::from)
}

/// The zone asks for a journaled store in the deprecated top-level shape, and
/// journaled stores are available.
pub open spec fn legacy_journal_case(z: ZoneSpec, journaled: bool) -> bool {
    z.stores@.len() == 0 && z.allow_update && journaled
}

/// The resolved store for the declared store at index `i`.
pub open spec fn declared_store(z: ZoneSpec, i: int) -> ResolvedStore {
    ResolvedStore {
        backend: Backend::Declared(i as usize),
        sign: store_signable(z.stores@[i]) && z.enable_dnssec,
    }
}

/// Warnings for a zone with declared stores.
pub open spec fn declared_warnings(z: ZoneSpec) -> Seq<ZoneWarning> {
    let update: Seq<ZoneWarning> = if z.allow_update {
        seq![ZoneWarning::UpdateFlagMisplaced]
    } else {
        seq![]
    };
    let ignored: Seq<ZoneWarning> = if z.file is Some {
        Seq::new(z.stores@.len(), |i: int| ZoneWarning::LegacyFileIgnored(i as usize))
    } else {
        seq![]
    };
    update + ignored
}

/// What resolving a zone yields: declared stores in declaration order; else a
/// journaled store made from the top-level shape; else a plain file store made
/// from the top-level file path.
pub open spec fn zone_plan(z: ZoneSpec, journaled: bool) -> Result<ZonePlanView, ZoneError> {
    if z.stores@.len() > 0 {
        Ok(
            ZonePlanView {
                stores: Seq::new(z.stores@.len(), |i: int| declared_store(z, i)),
                warnings: declared_warnings(z),
                journal_file_path: None,
            },
        )
    } else if z.file is None {
        Err(ZoneError::MissingZoneFile)
    } else if legacy_journal_case(z, journaled) {
        Ok(
            ZonePlanView {
                stores: seq![ResolvedStore { backend: Backend::LegacyJournal, sign: z.enable_dnssec }],
                warnings: seq![ZoneWarning::LegacyJournalDeprecated],
                journal_file_path: Some(
                    path_with_extension(z.file->Some_0@, journal_ext()),
                ),
            },
        )
    } else {
        Ok(
            ZonePlanView {
                stores: seq![ResolvedStore { backend: Backend::LegacyFile, sign: z.enable_dnssec }],
                warnings: if z.allow_update {
                    seq![ZoneWarning::UpdateFlagMisplaced]
                } else {
                    seq![]
                },
                journal_file_path: None,
            },
        )
    }
}

/// Whether a store's authority can hold signing keys.
pub fn is_signable(s: &StoreSpec) -> (r: bool)
    ensures
        r == store_signable(*s),
{
    match s {
        StoreSpec::File { .. } => true,
        StoreSpec::TransactionalFile { .. } => true,
        _ => false,
    }
}

/// Resolves a zone into the authorities to construct, in order. `journaled`
/// says whether journaled stores are available in this build.
pub fn resolve_zone(z: &ZoneSpec, journaled: bool) -> (r: Result<ZonePlan, ZoneError>)
    ensures
        match r {
            Ok(p) => zone_plan(*z, journaled) == Ok::<ZonePlanView, ZoneError>(p@),
            Err(e) => zone_plan(*z, journaled) == Err::<ZonePlanView, ZoneError>(e),
        },
{
    let n = z.stores.len();
    if n > 0 {
        let mut stores: Vec<ResolvedStore> = Vec::new();
        let mut warnings: Vec<ZoneWarning> = Vec::new();
        if z.allow_update {
            warnings.push(ZoneWarning::UpdateFlagMisplaced);
        }
        let ghost w0 = warnings@;
        let has_file = z.file.is_some();
        let mut i: usize = 0;
        while i < n
            invariant
                n == z.stores@.len(),
                0 <= i <= n,
                has_file == (z.file is Some),
                w0 == (if z.allow_update {
                    seq![ZoneWarning::UpdateFlagMisplaced]
                } else {
                    seq![]
                }),
                stores@ == Seq::new(i as nat, |k: int| declared_store(*z, k)),
                warnings@ == w0 + (if has_file {
                    Seq::new(i as nat, |k: int| ZoneWarning::LegacyFileIgnored(k as usize))
                } else {
                    seq![]
                }),
            decreases n - i,
        {
            let sign = is_signable(&z.stores[i]) && z.enable_dnssec;
            stores.push(ResolvedStore { backend: Backend::Declared(i), sign });
            if has_file {
                warnings.push(ZoneWarning::LegacyFileIgnored(i));
            }
            i = i + 1;
            proof {
                assert(stores@ =~= Seq::new(i as nat, |k: int| declared_store(*z, k)));
                if has_file {
                    assert(warnings@ =~= w0 + Seq::new(
                        i as nat,
                        |k: int| ZoneWarning::LegacyFileIgnored(k as usize),
                    ));
                } else {
                    assert(warnings@ =~= w0 + seq![]);
                }
            }
        }
        let plan = ZonePlan { stores, warnings, journal_file_path: None };
        proof {
            assert(plan@.warnings =~= declared_warnings(*z));
            assert(plan@.stores =~= zone_plan(*z, journaled)->Ok_0.stores);
        }
        return Ok(plan);
    }
    let file = match &z.file {
        Some(f) => f,
        None => {
            return Err(ZoneError::MissingZoneFile);
        },
    };
    if z.allow_update && journaled {
        proof {
            reveal_strlit("jrnl");
        }
        let journal = with_extension(file.as_str(), "jrnl").unwrap();
        let plan = ZonePlan {
            stores: vec![ResolvedStore { backend: Backend::LegacyJournal, sign: z.enable_dnssec }],
            warnings: vec![ZoneWarning::LegacyJournalDeprecated],
            journal_file_path: Some(journal),
        };
        proof {
            assert(plan@.stores =~= zone_plan(*z, journaled)->Ok_0.stores);
            assert(plan@.warnings =~= zone_plan(*z, journaled)->Ok_0.warnings);
        }
        Ok(plan)
    } else {
        let mut warnings: Vec<ZoneWarning> = Vec::new();
        if z.allow_update {
            warnings.push(ZoneWarning::UpdateFlagMisplaced);
        }
        let plan = ZonePlan {
            stores: vec![ResolvedStore { backend: Backend::LegacyFile, sign: z.enable_dnssec }],
            warnings,
            journal_file_path: None,
        };
        proof {
            assert(plan@.stores =~= zone_plan(*z, journaled)->Ok_0.stores);
            assert(plan@.warnings =~= zone_plan(*z, journaled)->Ok_0.warnings);
        }
        Ok(plan)
    }
}

/// `r` is what `resolve_zone` returns for `z`.
pub open spec fn resolves_to(z: ZoneSpec, journaled: bool, r: Result<ZonePlanView, ZoneError>) -> bool {
    match r {
        Ok(p) => zone_plan(z, journaled) == Ok::<ZonePlanView, ZoneError>(p),
        Err(e) => zone_plan(z, journaled) == Err::<ZonePlanView, ZoneError>(e),
    }
}

/// Resolves every zone, one at a time and in order. The first zone that
/// fails ends resolution, with its position and error.
pub fn resolve_zones(zones: &Vec<ZoneSpec>, journaled: bool) -> (r: Result<Vec<ZonePlan>, (usize, ZoneError)>)
    ensures
        match r {
            Ok(plans) => plans@.len() == zones@.len() && forall|i: int|
                0 <= i < zones@.len() ==> resolves_to(
                    zones@[i],
                    journaled,
                    Ok::<ZonePlanView, ZoneError>(#[trigger] plans@[i]@),
                ),
            Err((k, e)) => k < zones@.len() && resolves_to(
                zones@[k as int],
                journaled,
                Err::<ZonePlanView, ZoneError>(e),
            ) && forall|i: int| 0 <= i < k ==> #[trigger] zone_plan(zones@[i], journaled) is Ok,
        },
{
    let mut plans: Vec<ZonePlan> = Vec::new();
    let mut i: usize = 0;
    while i < zones.len()
        invariant
            0 <= i <= zones@.len(),
            plans@.len() == i,
            forall|k: int|
                0 <= k < i ==> resolves_to(
                    zones@[k],
                    journaled,
                    Ok::<ZonePlanView, ZoneError>(#[trigger] plans@[k]@),
                ),
        decreases zones@.len() - i,
    {
        match resolve_zone(&zones[i], journaled) {
            Ok(p) => {
                plans.push(p);
            },
            Err(e) => {
                proof {
                    assert forall|k: int| 0 <= k < i implies #[trigger] zone_plan(
                        zones@[k],
                        journaled,
                    ) is Ok by {
                        assert(resolves_to(
                            zones@[k],
                            journaled,
                            Ok::<ZonePlanView, ZoneError>(plans@[k]@),
                        ));
                    }
                }
                return Err((i, e));
            },
        }
        i = i + 1;
    }
    Ok(plans)
}

/// A zone with declared stores resolves, one authority per store, in the
/// order the stores were declared.
pub proof fn lemma_declared_order(z: ZoneSpec, journaled: bool)
    requires
        z.stores@.len() > 0,
    ensures
        zone_plan(z, journaled) is Ok,
        zone_plan(z, journaled)->Ok_0.stores.len() == z.stores@.len(),
        forall|i: int|
            0 <= i < z.stores@.len() ==> (#[trigger] zone_plan(z, journaled)->Ok_0.stores[i]).backend
                == Backend::Declared(i as usize),
{
}

/// With no declared stores, the update flag set and journaled stores
/// available, the journal path is the zone file path with its extension
/// replaced, and the deprecation is warned about exactly once.
pub proof fn lemma_legacy_journal(z: ZoneSpec)
    requires
        z.stores@.len() == 0,
        z.allow_update,
        z.file is Some,
    ensures
        zone_plan(z, true) is Ok,
        zone_plan(z, true)->Ok_0.journal_file_path == Some(
            path_with_extension(z.file->Some_0@, "jrnl"@),
        ),
        zone_plan(z, true)->Ok_0.stores == seq![ResolvedStore { backend: Backend::LegacyJournal, sign: z.enable_dnssec }],
        zone_plan(z, true)->Ok_0.warnings == seq![ZoneWarning::LegacyJournalDeprecated],
{
}

/// With no declared stores and the update flag clear, resolution fails with a
/// missing zone file exactly when no top-level file path is set, and yields
/// exactly one authority otherwise.
pub proof fn lemma_legacy_file(z: ZoneSpec, journaled: bool)
    requires
        z.stores@.len() == 0,
        !z.allow_update,
    ensures
        zone_plan(z, journaled) == Err::<ZonePlanView, ZoneError>(ZoneError::MissingZoneFile)
            <==> z.file is None,
        zone_plan(z, journaled) is Ok <==> z.file is Some,
        zone_plan(z, journaled) matches Ok(p) ==> p.stores == seq![ResolvedStore { backend: Backend::LegacyFile, sign: z.enable_dnssec }],
{
}

} // verus!
