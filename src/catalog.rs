use vstd::prelude::*;

verus! {

/// One record of a catalog file, as its keys and scalar values.
pub type Record = Vec<(String, String)>;

/// The abstract form of a record: its entries as character sequences.
pub open spec fn record_view(r: Record) -> Seq<(Seq<char>, Seq<char>)> {
    r@.map_values(|e: (String, String)| (e.0@, e.1@))
}

/// The abstract form of a sequence of records.
pub open spec fn records_view(rs: Vec<Record>) -> Seq<Seq<(Seq<char>, Seq<char>)>> {
    rs@.map_values(|r: Record| record_view(r))
}

/// What YAML parsing makes of a catalog file's bytes: the records of its top-level
/// sequence, or the parser's diagnostic.
pub uninterp spec fn yaml_records(text: Seq<u8>) -> Result<Seq<Seq<(Seq<char>, Seq<char>)>>, Seq<char>>;

pub open spec fn records_outcome_view(r: Result<Vec<Record>, String>) -> Result<
    Seq<Seq<(Seq<char>, Seq<char>)>>,
    Seq<char>,
> {
    match r {
        Ok(rs) => Ok(records_view(rs)),
        Err(m) => Err(m@),
    }
}

/// Relies on serde_yaml::from_slice, read into a sequence of string-keyed maps
/// whose values are scalars taken as text, and on the `Display` of its error:
/// the outcome depends on the bytes alone.
#[verifier::external_body]
fn read_records(text: &[u8]) -> (r: Result<Vec<Record>, String>)
    ensures
        records_outcome_view(r) == yaml_records(text@),
{
    match serde_yaml::from_slice::<Vec<std::collections::BTreeMap<String, String>>>(text) {
        Ok(maps) => Ok(maps.into_iter().map(Vec::from_iter).collect()),
        Err(e) => Err(e.to_string()),
    }
}

/// The value of the first entry of `rec` whose key is `key`.
pub open spec fn lookup(rec: Seq<(Seq<char>, Seq<char>)>, key: Seq<char>) -> Option<Seq<char>>
    decreases rec.len(),
{
    if rec.len() == 0 {
        None
    } else if rec[0].0 == key {
        Some(rec[0].1)
    } else {
        lookup(rec.drop_first(), key)
    }
}

fn find_field(rec: &Record, key: &String) -> (r: Option<String>)
    ensures
        r matches Some(v) ==> lookup(record_view(*rec), key@) == Some(v@),
        r is None ==> lookup(record_view(*rec), key@) is None,
{
    let ghost rv = record_view(*rec);
    let mut i: usize = 0;
    assert(rv.skip(0) =~= rv);
    while i < rec.len()
        invariant
            i <= rec.len(),
            rv == record_view(*rec),
            lookup(rv, key@) == lookup(rv.skip(i as int), key@),
        decreases rec.len() - i,
    {
        assert(rv.skip(i as int).drop_first() =~= rv.skip(i + 1));
        if rec[i].0 == *key {
            return Some(rec[i].1.clone());
        }
        i = i + 1;
    }
    None
}

/// One installable tool of the catalog.
#[derive(Clone, Debug, PartialEq, Eq)]
pub struct ToolDescriptor {
    /// Short display name.
    pub title: String,
    /// Free text, which may span several lines.
    pub description: String,
    /// Link to the tool's source, shown to the user.
    pub repository_url: String,
    /// Whether the install script needs elevated rights (informational).
    pub needs_elevated_privileges: bool,
    /// The command line, or script, that installs the tool.
    pub install_script: String,
}

/// The abstract form of a descriptor.
pub struct ToolView {
    pub title: Seq<char>,
    pub description: Seq<char>,
    pub repository_url: Seq<char>,
    pub needs_elevated_privileges: bool,
    pub install_script: Seq<char>,
}

impl View for ToolDescriptor {
    type V = ToolView;

    open spec fn view(&self) -> ToolView {
        ToolView {
            title: self.title@,
            description: self.description@,
            repository_url: self.repository_url@,
            needs_elevated_privileges: self.needs_elevated_privileges,
            install_script: self.install_script@,
        }
    }
}

/// The abstract form of a sequence of descriptors.
pub open spec fn tool_views(ts: Seq<ToolDescriptor>) -> Seq<ToolView> {
    ts.map_values(|t: ToolDescriptor| t@)
}

/// Why a catalog could not be loaded.
#[derive(Clone, Debug, PartialEq, Eq)]
pub enum LoadError {
    /// The file could not be read; the system's message.
    Io(String),
    /// The contents do not form a catalog; a diagnostic for the user.
    Parse(String),
}

pub enum LoadErrorView {
    Io(Seq<char>),
    Parse(Seq<char>),
}

impl View for LoadError {
    type V = LoadErrorView;

    open spec fn view(&self) -> LoadErrorView {
        match self {
            LoadError::Io(m) => LoadErrorView::Io(m@),
            LoadError::Parse(m) => LoadErrorView::Parse(m@),
        }
    }
}

/// The abstract form of a load's outcome.
pub open spec fn load_view(r: Result<Vec<ToolDescriptor>, LoadError>) -> Result<
    Seq<ToolView>,
    LoadErrorView,
> {
    match r {
        Ok(ts) => Ok(tool_views(ts@)),
        Err(e) => Err(e@),
    }
}

/// The boolean that a YAML scalar spells, if any.
pub open spec fn yaml_bool(v: Seq<char>) -> Option<bool> {
    if v == "true"@ || v == "True"@ || v == "TRUE"@ {
        Some(true)
    } else if v == "false"@ || v == "False"@ || v == "FALSE"@ {
        Some(false)
    } else {
        None
    }
}

pub open spec fn missing_field_message(key: Seq<char>) -> Seq<char> {
    "missing field `"@ + key + "`"@
}

pub open spec fn not_bool_message(key: Seq<char>) -> Seq<char> {
    "invalid value for field `"@ + key + "`, expected a boolean"@
}

/// The descriptor that a record describes, or the diagnostic of the first field
/// (in the order title, description, repo, needs_root, install_script) that is
/// missing or, for `needs_root`, not a boolean. Other keys are ignored.
pub open spec fn descriptor_of(rec: Seq<(Seq<char>, Seq<char>)>) -> Result<ToolView, Seq<char>> {
    let title = lookup(rec, "title"@);
    let description = lookup(rec, "description"@);
    let repo = lookup(rec, "repo"@);
    let needs_root = lookup(rec, "needs_root"@);
    let script = lookup(rec, "install_script"@);
    if title is None {
        Err(missing_field_message("title"@))
    } else if description is None {
        Err(missing_field_message("description"@))
    } else if repo is None {
        Err(missing_field_message("repo"@))
    } else if needs_root is None {
        Err(missing_field_message("needs_root"@))
    } else if yaml_bool(needs_root->Some_0) is None {
        Err(not_bool_message("needs_root"@))
    } else if script is None {
        Err(missing_field_message("install_script"@))
    } else {
        Ok(
            ToolView {
                title: title->Some_0,
                description: description->Some_0,
                repository_url: repo->Some_0,
                needs_elevated_privileges: yaml_bool(needs_root->Some_0)->Some_0,
                install_script: script->Some_0,
            },
        )
    }
}

/// The catalog that a sequence of records describes, in their order, or the
/// diagnostic of the first record that describes no tool.
pub open spec fn catalog_of(recs: Seq<Seq<(Seq<char>, Seq<char>)>>) -> Result<Seq<ToolView>, Seq<char>>
    decreases recs.len(),
{
    if recs.len() == 0 {
        Ok(Seq::empty())
    } else {
        match catalog_of(recs.drop_last()) {
            Err(m) => Err(m),
            Ok(ts) => match descriptor_of(recs.last()) {
                Err(m) => Err(m),
                Ok(t) => Ok(ts.push(t)),
            },
        }
    }
}

/// What loading a catalog file with contents `text` gives.
pub open spec fn parse_outcome(text: Seq<u8>) -> Result<Seq<ToolView>, LoadErrorView> {
    match yaml_records(text) {
        Err(m) => Err(LoadErrorView::Parse(m)),
        Ok(recs) => match catalog_of(recs) {
            Err(m) => Err(LoadErrorView::Parse(m)),
            Ok(ts) => Ok(ts),
        },
    }
}

fn text_is(s: &String, lit: &str) -> (r: bool)
    ensures
        r == (s@ == lit@),
{
    *s == String::from_str(lit)
}

fn required_field(rec: &Record, key: &str) -> (r: Result<String, String>)
    ensures
        r matches Ok(v) ==> lookup(record_view(*rec), key@) == Some(v@),
        r matches Err(m) ==> lookup(record_view(*rec), key@) is None && m@
            == missing_field_message(key@),
{
    match find_field(rec, &String::from_str(key)) {
        Some(v) => Ok(v),
        None => Err(String::from_str("missing field `").concat(key).concat("`")),
    }
}

fn parse_yaml_bool(v: &String) -> (r: Option<bool>)
    ensures
        r == yaml_bool(v@),
{
    if text_is(v, "true") || text_is(v, "True") || text_is(v, "TRUE") {
        Some(true)
    } else if text_is(v, "false") || text_is(v, "False") || text_is(v, "FALSE") {
        Some(false)
    } else {
        None
    }
}

/// Reads one tool from a record of a catalog file.
pub fn descriptor_from_record(rec: &Record) -> (r: Result<ToolDescriptor, String>)
    ensures
        match (r, descriptor_of(record_view(*rec))) {
            (Ok(t), Ok(v)) => t@ == v,
            (Err(m), Err(v)) => m@ == v,
            _ => false,
        },
{
    let title = required_field(rec, "title")?;
    let description = required_field(rec, "description")?;
    let repo = required_field(rec, "repo")?;
    let needs_root = required_field(rec, "needs_root")?;
    let needs_elevated_privileges = match parse_yaml_bool(&needs_root) {
        Some(b) => b,
        None => {
            return Err(
                String::from_str("invalid value for field `").concat("needs_root").concat(
                    "`, expected a boolean",
                ),
            );
        },
    };
    let install_script = required_field(rec, "install_script")?;
    Ok(
        ToolDescriptor {
            title,
            description,
            repository_url: repo,
            needs_elevated_privileges,
            install_script,
        },
    )
}

proof fn lemma_catalog_error_persists(recs: Seq<Seq<(Seq<char>, Seq<char>)>>, k: int)
    requires
        0 <= k <= recs.len(),
        catalog_of(recs.take(k)) is Err,
    ensures
        catalog_of(recs) == catalog_of(recs.take(k)),
    decreases recs.len() - k,
{
    if k < recs.len() {
        assert(recs.take(k + 1).drop_last() =~= recs.take(k));
        lemma_catalog_error_persists(recs, k + 1);
    } else {
        assert(recs.take(k) =~= recs);
    }
}

/// Reads the tools of a catalog from its records, in order.
pub fn catalog_from_records(recs: &Vec<Record>) -> (r: Result<Vec<ToolDescriptor>, String>)
    ensures
        match (r, catalog_of(records_view(*recs))) {
            (Ok(ts), Ok(v)) => tool_views(ts@) == v,
            (Err(m), Err(v)) => m@ == v,
            _ => false,
        },
{
    let ghost rv = records_view(*recs);
    let mut out: Vec<ToolDescriptor> = Vec::new();
    let mut i: usize = 0;
    assert(rv.take(0) =~= Seq::<Seq<(Seq<char>, Seq<char>)>>::empty());
    assert(tool_views(out@) =~= Seq::<ToolView>::empty());
    while i < recs.len()
        invariant
            i <= recs.len(),
            rv == records_view(*recs),
            catalog_of(rv.take(i as int)) == Ok::<Seq<ToolView>, Seq<char>>(tool_views(out@)),
        decreases recs.len() - i,
    {
        assert(rv.take(i + 1).drop_last() =~= rv.take(i as int));
        assert(rv.take(i + 1).last() == record_view(recs@[i as int]));
        let ghost prev = out@;
        match descriptor_from_record(&recs[i]) {
            Ok(t) => {
                out.push(t);
                assert(tool_views(out@) =~= tool_views(prev).push(t@));
            },
            Err(m) => {
                proof {
                    lemma_catalog_error_persists(rv, i + 1);
                }
                return Err(m);
            },
        }
        i = i + 1;
    }
    assert(rv.take(i as int) =~= rv);
    Ok(out)
}

/// Loads a catalog from the contents of its file.
pub fn parse_catalog(text: &[u8]) -> (r: Result<Vec<ToolDescriptor>, LoadError>)
    ensures
        load_view(r) == parse_outcome(text@),
{
    match read_records(text) {
        Err(m) => Err(LoadError::Parse(m)),
        Ok(recs) => match catalog_from_records(&recs) {
            Err(m) => Err(LoadError::Parse(m)),
            Ok(ts) => Ok(ts),
        },
    }
}

/// Loads a catalog from the outcome of reading its file: a failed read gives
/// `LoadError::Io` with the system's message, and parse errors never take that form.
pub fn load_catalog_from(read: Result<Vec<u8>, String>) -> (r: Result<Vec<ToolDescriptor>, LoadError>)
    ensures
        match read {
            Err(m) => r == Err::<Vec<ToolDescriptor>, LoadError>(LoadError::Io(m)),
            Ok(bytes) => load_view(r) == parse_outcome(bytes@),
        },
        r matches Err(e) ==> (e is Io <==> read is Err),
{
    match read {
        Err(m) => Err(LoadError::Io(m)),
        Ok(bytes) => parse_catalog(bytes.as_slice()),
    }
}

/// A record that describes a tool: all five fields are there and `needs_root`
/// spells a boolean.
pub open spec fn record_well_formed(rec: Seq<(Seq<char>, Seq<char>)>) -> bool {
    &&& lookup(rec, "title"@) is Some
    &&& lookup(rec, "description"@) is Some
    &&& lookup(rec, "repo"@) is Some
    &&& lookup(rec, "needs_root"@) is Some
    &&& yaml_bool(lookup(rec, "needs_root"@)->Some_0) is Some
    &&& lookup(rec, "install_script"@) is Some
}

/// The names of the fields that every record must have.
pub open spec fn is_required_field(key: Seq<char>) -> bool {
    key == "title"@ || key == "description"@ || key == "repo"@ || key == "needs_root"@ || key
        == "install_script"@
}

proof fn lemma_catalog_all_ok(recs: Seq<Seq<(Seq<char>, Seq<char>)>>)
    requires
        forall|i: int| 0 <= i < recs.len() ==> descriptor_of(#[trigger] recs[i]) is Ok,
    ensures
        catalog_of(recs) is Ok,
        catalog_of(recs)->Ok_0.len() == recs.len(),
        forall|i: int|
            0 <= i < recs.len() ==> catalog_of(recs)->Ok_0[i] == (#[trigger] descriptor_of(
                recs[i],
            ))->Ok_0,
    decreases recs.len(),
{
    if recs.len() > 0 {
        let front = recs.drop_last();
        assert forall|i: int| 0 <= i < front.len() implies descriptor_of(#[trigger] front[i]) is Ok by {
            assert(front[i] == recs[i]);
        }
        lemma_catalog_all_ok(front);
        assert(descriptor_of(recs[recs.len() - 1]) is Ok);
        assert forall|i: int| 0 <= i < recs.len() implies catalog_of(recs)->Ok_0[i] == (
        #[trigger] descriptor_of(recs[i]))->Ok_0 by {
            if i < recs.len() - 1 {
                assert(front[i] == recs[i]);
            }
        }
    }
}

proof fn lemma_catalog_err_at(recs: Seq<Seq<(Seq<char>, Seq<char>)>>, i: int)
    requires
        0 <= i < recs.len(),
        descriptor_of(recs[i]) is Err,
    ensures
        catalog_of(recs) is Err,
    decreases recs.len(),
{
    if i < recs.len() - 1 {
        assert(recs.drop_last()[i] == recs[i]);
        lemma_catalog_err_at(recs.drop_last(), i);
    }
}

/// Loading the contents of a file whose records all describe tools gives one
/// descriptor per record, in the file's order, each field copied verbatim from
/// its record.
pub proof fn lemma_well_formed_file_loads(text: Seq<u8>)
    requires
        yaml_records(text) is Ok,
        forall|i: int|
            0 <= i < yaml_records(text)->Ok_0.len() ==> record_well_formed(
                #[trigger] yaml_records(text)->Ok_0[i],
            ),
    ensures
        parse_outcome(text) is Ok,
        parse_outcome(text)->Ok_0.len() == yaml_records(text)->Ok_0.len(),
        forall|i: int|
            #![trigger parse_outcome(text)->Ok_0[i]]
            0 <= i < yaml_records(text)->Ok_0.len() ==> {
                let rec = yaml_records(text)->Ok_0[i];
                let t = parse_outcome(text)->Ok_0[i];
                &&& t.title == lookup(rec, "title"@)->Some_0
                &&& t.description == lookup(rec, "description"@)->Some_0
                &&& t.repository_url == lookup(rec, "repo"@)->Some_0
                &&& t.needs_elevated_privileges == yaml_bool(lookup(rec, "needs_root"@)->Some_0)->Some_0
                &&& t.install_script == lookup(rec, "install_script"@)->Some_0
            },
{
    let recs = yaml_records(text)->Ok_0;
    assert forall|i: int| 0 <= i < recs.len() implies descriptor_of(#[trigger] recs[i]) is Ok by {
        assert(record_well_formed(recs[i]));
    }
    lemma_catalog_all_ok(recs);
}

/// A file one of whose records lacks a required field does not load: the outcome
/// is a parse error, with no descriptors.
pub proof fn lemma_missing_field_rejected(text: Seq<u8>, i: int, key: Seq<char>)
    requires
        yaml_records(text) is Ok,
        0 <= i < yaml_records(text)->Ok_0.len(),
        is_required_field(key),
        lookup(yaml_records(text)->Ok_0[i], key) is None,
    ensures
        parse_outcome(text) is Err,
        parse_outcome(text)->Err_0 is Parse,
{
    lemma_catalog_err_at(yaml_records(text)->Ok_0, i);
}

/// Loading the same contents twice gives equal outcomes: descriptors equal field
/// by field, in the same order, or the same error.
pub proof fn lemma_load_repeatable(
    text: Seq<u8>,
    first: Result<Vec<ToolDescriptor>, LoadError>,
    second: Result<Vec<ToolDescriptor>, LoadError>,
)
    requires
        load_view(first) == parse_outcome(text),
        load_view(second) == parse_outcome(text),
    ensures
        load_view(first) == load_view(second),
        first is Ok <==> second is Ok,
        (first is Ok && second is Ok) ==> {
            let a = first->Ok_0;
            let b = second->Ok_0;
            &&& a@.len() == b@.len()
            &&& forall|k: int| 0 <= k < a@.len() ==> (#[trigger] a@[k])@ == b@[k]@
        },
{
    if first is Ok && second is Ok {
        let a = first->Ok_0;
        let b = second->Ok_0;
        assert(tool_views(a@) == tool_views(b@));
        assert forall|k: int| 0 <= k < a@.len() implies (#[trigger] a@[k])@ == b@[k]@ by {
            assert(tool_views(a@)[k] == tool_views(b@)[k]);
        }
    }
}

} // verus!
