//! Descriptor assembly: turning the engine's raw container-listing
//! records into typed module descriptors, dropping records that cannot be
//! decoded instead of failing the whole listing.
use vstd::prelude::*;
use vstd::string::{StrSliceExecFns, StringExecFns};
use crate::config::{ContainerCreateBody, DockerConfig};
use crate::env::{env_list_map, env_pairs, lemma_map_of_pairs_cons, EnvMap};
use crate::error::Error;
use crate::text::{entry_key, entry_value, eq_pos, find_eq, is_blank, lemma_eq_pos, str_is_blank};

verus! {

/// One raw record of the engine's container listing, as the adapter
/// reads it: the reported names, the image reference, and the resource's
/// labels as `KEY=VALUE` lines.
pub struct ContainerRecord {
    pub names: Vec<String>,
    pub image: String,
    pub labels: Vec<String>,
}

/// Every label line carries an `=` separating key from value.
pub open spec fn labels_ok(labels: Seq<Seq<char>>) -> bool {
    forall|i: int| 0 <= i < labels.len() ==> eq_pos(labels[i]) < labels[i].len()
}

/// The display name derived from the reported names: the first name with
/// its leading separator stripped, or the sentinel when no name is
/// reported.
pub open spec fn display_name_of(names: Seq<Seq<char>>) -> Seq<char> {
    if names.len() == 0 {
        "Unknown"@
    } else if names[0].len() > 0 {
        names[0].skip(1)
    } else {
        Seq::empty()
    }
}

/// Whether a record can be decoded into a descriptor: its labels parse,
/// its image is not blank, and its display name is not blank.
pub open spec fn record_ok(rec: ContainerRecord) -> bool {
    &&& labels_ok(rec.labels.deep_view())
    &&& !is_blank(rec.image@)
    &&& !is_blank(display_name_of(rec.names.deep_view()))
}

/// The decoded content of a record: display name, image, and label
/// mapping; nothing for a record that is dropped.
pub open spec fn record_view(rec: ContainerRecord) -> Option<
    (Seq<char>, Seq<char>, Map<Seq<char>, Seq<char>>),
> {
    if record_ok(rec) {
        Option::Some(
            (
                display_name_of(rec.names.deep_view()),
                rec.image@,
                env_list_map(rec.labels.deep_view()),
            ),
        )
    } else {
        Option::None
    }
}

/// A typed module descriptor: the display name and the Config rebuilt
/// from the record.
pub struct DockerModule {
    pub name: String,
    pub config: DockerConfig,
}

impl DockerModule {
    /// Builds a descriptor; the name must not be empty or whitespace
    /// only.
    pub fn new(name: &str, config: DockerConfig) -> (r: Result<DockerModule, Error>)
        ensures
            r is Ok <==> !is_blank(name@),
            r matches Err(e) ==> e is Validation,
            r matches Ok(m) ==> m.name@ == name@ && m.config == config,
    {
        if str_is_blank(name) {
            Err(Error::Validation(String::from_str("module name is empty")))
        } else {
            Ok(DockerModule { name: name.to_owned(), config })
        }
    }

    /// The display name.
    pub fn name(&self) -> (r: &String)
        ensures
            r == self.name,
    {
        &self.name
    }

    /// The Config derived from the record.
    pub fn config(&self) -> (r: &DockerConfig)
        ensures
            r == self.config,
    {
        &self.config
    }
}

/// The decoded content of a descriptor: display name, image, and label
/// mapping.
pub open spec fn module_view(m: DockerModule) -> (Seq<char>, Seq<char>, Map<Seq<char>, Seq<char>>) {
    (
        m.name@,
        m.config.image@,
        match m.config.create_options.labels {
            Option::Some(l) => l@,
            Option::None => Map::empty(),
        },
    )
}

/// The decoded contents of a whole descriptor list.
pub open spec fn views_of_modules(ms: Seq<DockerModule>) -> Seq<
    (Seq<char>, Seq<char>, Map<Seq<char>, Seq<char>>),
> {
    Seq::new(ms.len(), |i: int| module_view(ms[i]))
}

/// The descriptors a record list decodes to, in order, with records that
/// cannot be decoded left out.
pub open spec fn modules_of(records: Seq<ContainerRecord>) -> Seq<
    (Seq<char>, Seq<char>, Map<Seq<char>, Seq<char>>),
>
    decreases records.len(),
{
    if records.len() == 0 {
        Seq::empty()
    } else {
        let rest = modules_of(records.drop_last());
        match record_view(records.last()) {
            Option::Some(v) => rest + seq![v],
            Option::None => rest,
        }
    }
}

/// A record that cannot be decoded contributes nothing to the listing:
/// dropping it leaves the assembled descriptors of all other records
/// unchanged, so one malformed record never fails or thins the rest of
/// the call.
pub proof fn lemma_undecodable_record_omitted(records: Seq<ContainerRecord>, i: int)
    requires
        0 <= i < records.len(),
        record_view(records[i]) is None,
    ensures
        modules_of(records) =~= modules_of(records.remove(i)),
    decreases records.len(),
{
    if i == records.len() - 1 {
        assert(records.remove(i) =~= records.drop_last());
    } else {
        assert(records.remove(i).drop_last() =~= records.drop_last().remove(i));
        assert(records.remove(i).last() == records.last());
        assert(records.drop_last()[i] == records[i]);
        lemma_undecodable_record_omitted(records.drop_last(), i);
    }
}

/// Every record that decodes keeps its descriptor in the listing,
/// whatever other records stand around it.
pub proof fn lemma_decodable_record_kept(
    records: Seq<ContainerRecord>,
    i: int,
    v: (Seq<char>, Seq<char>, Map<Seq<char>, Seq<char>>),
)
    requires
        0 <= i < records.len(),
        record_view(records[i]) == Option::Some(v),
    ensures
        modules_of(records).contains(v),
    decreases records.len(),
{
    if i == records.len() - 1 {
        let rest = modules_of(records.drop_last());
        assert(modules_of(records) == rest + seq![v]);
        assert(modules_of(records)[rest.len() as int] == v);
    } else {
        assert(records.drop_last()[i] == records[i]);
        lemma_decodable_record_kept(records.drop_last(), i, v);
        let rest = modules_of(records.drop_last());
        let j = choose|j: int| 0 <= j < rest.len() && rest[j] == v;
        match record_view(records.last()) {
            Option::Some(w) => {
                assert(modules_of(records)[j] == v);
            },
            Option::None => {
                assert(modules_of(records)[j] == v);
            },
        }
    }
}

/// Parses a record's label lines into a label mapping; on a repeated key
/// the later line wins. Nothing is returned when a line has no `=`.
pub fn parse_labels(labels: &Vec<String>) -> (r: Option<EnvMap>)
    ensures
        r is Some <==> labels_ok(labels.deep_view()),
        r matches Some(m) ==> m.wf() && m@ == env_list_map(labels.deep_view()),
{
    let n = labels.len();
    let mut m = EnvMap::new();
    let mut i: usize = n;
    while i > 0
        invariant
            n == labels.deep_view().len(),
            0 <= i <= n,
            m.wf(),
            m@ == env_list_map(labels.deep_view().skip(i as int)),
            forall|j: int|
                i <= j < n ==> eq_pos(#[trigger] labels.deep_view()[j]) < labels.deep_view()[
                    j
                ].len(),
        decreases i,
    {
        i = i - 1;
        let s: &String = &labels[i];
        let slen = s.as_str().unicode_len();
        let p = find_eq(s.as_str());
        proof {
            lemma_eq_pos(s@);
        }
        if p == slen {
            proof {
                assert(eq_pos(labels.deep_view()[i as int]) == labels.deep_view()[
                    i as int
                ].len());
            }
            return None;
        }
        let key: String = String::from_str(s.as_str().substring_char(0, p));
        let value: String = String::from_str(s.as_str().substring_char(p + 1, slen));
        let ghost e = labels.deep_view()[i as int];
        assert(key@ =~= entry_key(e));
        assert(value@ =~= entry_value(e));
        let ghost mm = env_list_map(labels.deep_view().skip(i as int + 1));
        proof {
            assert(labels.deep_view().skip(i as int) =~= seq![e] + labels.deep_view().skip(
                i as int + 1,
            ));
            assert(env_pairs(seq![e] + labels.deep_view().skip(i as int + 1)) =~= seq![
                (entry_key(e), entry_value(e)),
            ] + env_pairs(labels.deep_view().skip(i as int + 1)));
            lemma_map_of_pairs_cons(
                env_pairs(labels.deep_view().skip(i as int + 1)),
                entry_key(e),
                entry_value(e),
            );
        }
        if !m.contains_key(key.as_str()) {
            m.insert(key, value);
            proof {
                assert(env_list_map(labels.deep_view().skip(i as int)) =~= mm.insert(
                    entry_key(e),
                    entry_value(e),
                ));
                assert(m@ =~= env_list_map(labels.deep_view().skip(i as int)));
            }
        } else {
            proof {
                assert(env_list_map(labels.deep_view().skip(i as int)) =~= mm);
            }
        }
    }
    proof {
        assert(labels.deep_view().skip(0) =~= labels.deep_view());
    }
    Some(m)
}

/// The display name of a record: the first reported name without its
/// leading separator, or the sentinel when no name is reported.
pub fn display_name(names: &Vec<String>) -> (r: String)
    ensures
        r@ == display_name_of(names.deep_view()),
{
    if names.len() == 0 {
        String::from_str("Unknown")
    } else {
        let first: &String = &names[0];
        let n = first.as_str().unicode_len();
        if n > 0 {
            String::from_str(first.as_str().substring_char(1, n))
        } else {
            String::new()
        }
    }
}

/// Builds module descriptors from raw listing records. A record whose
/// labels do not parse, whose image is blank, or whose display name
/// comes out blank is dropped; every other record yields its descriptor,
/// in order. Each descriptor's Config carries the record's image and
/// labels and nothing else.
pub fn list_modules(records: &Vec<ContainerRecord>) -> (r: Vec<DockerModule>)
    ensures
        views_of_modules(r@) == modules_of(records@),
        forall|j: int|
            0 <= j < r@.len() ==> (#[trigger] r@[j]).config.create_options.env is None
                && r@[j].config.create_options.image is None
                && r@[j].config.create_options.networking_config is None
                && r@[j].config.create_options.wf(),
{
    let n = records.len();
    let mut out: Vec<DockerModule> = Vec::new();
    let mut i: usize = 0;
    while i < n
        invariant
            n == records@.len(),
            0 <= i <= n,
            views_of_modules(out@) =~= modules_of(records@.take(i as int)),
            forall|j: int|
                0 <= j < out@.len() ==> (#[trigger] out@[j]).config.create_options.env is None
                    && out@[j].config.create_options.image is None
                    && out@[j].config.create_options.networking_config is None
                    && out@[j].config.create_options.wf(),
        decreases n - i,
    {
        let rec = &records[i];
        let ghost rec_g = records@[i as int];
        proof {
            assert(records@.take(i as int + 1).drop_last() =~= records@.take(i as int));
            assert(records@.take(i as int + 1).last() == rec_g);
        }
        match parse_labels(&rec.labels) {
            None => {
                assert(!record_ok(rec_g));
            },
            Some(lm) => {
                let body = ContainerCreateBody::new().with_labels(lm);
                match DockerConfig::new(rec.image.as_str(), body) {
                    Err(_) => {
                        assert(!record_ok(rec_g));
                    },
                    Ok(config) => {
                        let name = display_name(&rec.names);
                        match DockerModule::new(name.as_str(), config) {
                            Err(_) => {
                                assert(!record_ok(rec_g));
                            },
                            Ok(m) => {
                                let ghost old_out = out@;
                                out.push(m);
                                proof {
                                    assert(record_ok(rec_g));
                                    assert(record_view(rec_g) == Option::Some(module_view(m)));
                                    assert forall|j: int|
                                        0 <= j < out@.len() implies views_of_modules(out@)[j]
                                        == modules_of(records@.take(i as int + 1))[j] by {
                                        if j < old_out.len() {
                                            assert(out@[j] == old_out[j]);
                                            assert(views_of_modules(old_out)[j] == modules_of(
                                                records@.take(i as int),
                                            )[j]);
                                        }
                                    }
                                    assert(views_of_modules(out@) =~= modules_of(
                                        records@.take(i as int + 1),
                                    ));
                                }
                            },
                        }
                    },
                }
            },
        }
        i = i + 1;
    }
    proof {
        assert(records@.take(n as int) =~= records@);
    }
    out
}

} // verus!
