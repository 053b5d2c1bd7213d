//! Validation in front of proof construction: witness type checks and the count
//! of public instances. Beside it, the export of a witness set for offline
//! debugging tools.

use vstd::prelude::*;
use vstd::string::StringExecFns;
use tinyjson::JsonValue;
use crate::json::{
    json_array, json_format, json_model, json_models, json_numberless, json_object, json_string,
    json_texts, members_of, JsonModel,
};
use crate::witness::{field_text, FieldElement, Witness, ZkCircuit};
use crate::zkas::{instance_arity, Opcode, VarType, ZkBinary};

verus! {

/// Why a proof attempt was turned away.
#[allow(inconsistent_fields)]
#[derive(Clone, Copy, Debug, PartialEq, Eq, Structural)]
pub enum Error {
    /// The witness at `index` is of type `actual` where the circuit declares
    /// `expected`.
    WrongWitnessType { index: usize, expected: VarType, actual: VarType },
    /// The circuit binds `expected` public instances and `actual` were given.
    IncorrectPublicInputsCount { expected: usize, actual: usize },
}

/// The number of slots that are both declared and supplied.
pub open spec fn paired_len(declared: Seq<VarType>, supplied: Seq<Witness>) -> int {
    if declared.len() <= supplied.len() {
        declared.len() as int
    } else {
        supplied.len() as int
    }
}

/// The first paired slot at or after `from` whose supplied value is not of the
/// declared type.
pub open spec fn first_mismatch(declared: Seq<VarType>, supplied: Seq<Witness>, from: int)
    -> Option<int>
    decreases paired_len(declared, supplied) - from,
{
    if from < 0 || from >= paired_len(declared, supplied) {
        None
    } else if supplied[from].tag() != declared[from] {
        Some(from)
    } else {
        first_mismatch(declared, supplied, from + 1)
    }
}

/// The answer of the validation: the first wrong witness if there is one, else a
/// wrong count of instances if it is wrong, else acceptance.
pub open spec fn check_outcome(
    declared: Seq<VarType>,
    supplied: Seq<Witness>,
    program: Seq<Opcode>,
    instances: nat,
) -> Result<(), Error> {
    match first_mismatch(declared, supplied, 0) {
        Some(i) => Err(
            Error::WrongWitnessType {
                index: i as usize,
                expected: declared[i],
                actual: supplied[i].tag(),
            },
        ),
        None => if instances == instance_arity(program) {
            Ok(())
        } else {
            Err(
                Error::IncorrectPublicInputsCount {
                    expected: instance_arity(program) as usize,
                    actual: instances as usize,
                },
            )
        },
    }
}

/// What `first_mismatch` finds is a mismatch with none before it, and it
/// finds nothing only where every paired slot agrees.
pub proof fn lemma_first_mismatch(declared: Seq<VarType>, supplied: Seq<Witness>, from: int)
    requires
        0 <= from,
    ensures
        match first_mismatch(declared, supplied, from) {
            Some(i) => from <= i < paired_len(declared, supplied) && supplied[i].tag()
                != declared[i] && forall|j: int| from <= j < i ==> supplied[j].tag() == declared[j],
            None => forall|j: int|
                from <= j < paired_len(declared, supplied) ==> supplied[j].tag() == declared[j],
        },
    decreases paired_len(declared, supplied) - from,
{
    if from < paired_len(declared, supplied) && supplied[from].tag() == declared[from] {
        lemma_first_mismatch(declared, supplied, from + 1);
    }
}

/// Where the sequences have equal length and every witness is of its declared
/// type, the type check passes: the outcome then rests on the count of
/// instances alone.
pub proof fn lemma_agreement_passes(
    declared: Seq<VarType>,
    supplied: Seq<Witness>,
    program: Seq<Opcode>,
    instances: nat,
)
    requires
        declared.len() == supplied.len(),
        forall|i: int| 0 <= i < supplied.len() ==> supplied[i].tag() == declared[i],
    ensures
        first_mismatch(declared, supplied, 0) is None,
        !(check_outcome(declared, supplied, program, instances) matches Err(
            Error::WrongWitnessType { .. },
        )),
        instances == instance_arity(program) ==> check_outcome(
            declared,
            supplied,
            program,
            instances,
        ) is Ok,
{
    lemma_first_mismatch(declared, supplied, 0);
}

/// Where `i` is the least position at which the witness is not of its
/// declared type, the check fails and reports exactly `i`, with the two types
/// found there.
pub proof fn lemma_least_mismatch_reported(
    declared: Seq<VarType>,
    supplied: Seq<Witness>,
    program: Seq<Opcode>,
    instances: nat,
    i: int,
)
    requires
        declared.len() == supplied.len(),
        0 <= i < supplied.len(),
        supplied[i].tag() != declared[i],
        forall|j: int| 0 <= j < i ==> supplied[j].tag() == declared[j],
    ensures
        check_outcome(declared, supplied, program, instances) == Err::<(), Error>(
            Error::WrongWitnessType {
                index: i as usize,
                expected: declared[i],
                actual: supplied[i].tag(),
            },
        ),
{
    lemma_first_mismatch(declared, supplied, 0);
}

/// The count of instances is accepted exactly when it equals the number of
/// `ConstrainInstance` opcodes, once the types agree.
pub proof fn lemma_count_decides(
    declared: Seq<VarType>,
    supplied: Seq<Witness>,
    program: Seq<Opcode>,
    instances: nat,
)
    requires
        first_mismatch(declared, supplied, 0) is None,
    ensures
        check_outcome(declared, supplied, program, instances) is Ok <==> instances
            == instance_arity(program),
{
}

/// The outcome is a function of the witness types, the declared types, the
/// opcode kinds and the number of instances: equal inputs give equal
/// outcomes, and no payload has a say.
pub proof fn lemma_outcome_repeatable(
    declared: Seq<VarType>,
    first: Seq<Witness>,
    second: Seq<Witness>,
    program: Seq<Opcode>,
    instances: nat,
)
    requires
        first.len() == second.len(),
        forall|i: int| 0 <= i < first.len() ==> first[i].tag() == second[i].tag(),
    ensures
        check_outcome(declared, first, program, instances) == check_outcome(
            declared,
            second,
            program,
            instances,
        ),
{
    lemma_first_mismatch(declared, first, 0);
    lemma_first_mismatch(declared, second, 0);
}

/// Counts the `ConstrainInstance` opcodes of a circuit's program.
pub fn count_instances(circuit: &ZkCircuit) -> (count: usize)
    ensures
        count == instance_arity(circuit.program()),
{
    let ghost program = circuit.program();
    let mut count: usize = 0;
    let mut i: usize = 0;
    proof {
        assert(program.take(0) =~= Seq::<Opcode>::empty());
    }
    while i < circuit.opcodes.len()
        invariant
            i <= circuit.opcodes.len(),
            program == circuit.program(),
            count <= i,
            count == instance_arity(program.take(i as int)),
        decreases circuit.opcodes.len() - i,
    {
        proof {
            assert(program.take(i + 1).drop_last() =~= program.take(i as int));
            assert(program.take(i + 1).last() == circuit.opcodes@[i as int].0);
        }
        match circuit.opcodes[i].0 {
            Opcode::ConstrainInstance => {
                count = count + 1;
            },
            _ => {},
        }
        i = i + 1;
    }
    proof {
        assert(program.take(i as int) =~= program);
    }
    count
}

/// Checks, before a proof is made, that each supplied witness is of the type
/// that the compiled circuit declares for its slot, and then that as many
/// public instances are given as the program binds.
///
/// The witnesses are paired with the declared types slot by slot, as far as
/// both reach. The first witness of another type than declared ends the
/// check with its index and the two types. Only where all agree are the
/// instances counted.
pub fn zkas_type_checks(circuit: &ZkCircuit, binary: &ZkBinary, instances: &Vec<FieldElement>) -> (r:
    Result<(), Error>)
    ensures
        r == check_outcome(
            binary.witnesses@,
            circuit.witnesses@,
            circuit.program(),
            instances@.len(),
        ),
{
    let ghost declared = binary.witnesses@;
    let ghost supplied = circuit.witnesses@;
    let paired: usize = if binary.witnesses.len() <= circuit.witnesses.len() {
        binary.witnesses.len()
    } else {
        circuit.witnesses.len()
    };
    let mut i: usize = 0;
    while i < paired
        invariant
            i <= paired,
            paired == paired_len(declared, supplied),
            declared == binary.witnesses@,
            supplied == circuit.witnesses@,
            first_mismatch(declared, supplied, 0) == first_mismatch(declared, supplied, i as int),
        decreases paired - i,
    {
        let expected: VarType = binary.witnesses[i];
        let actual: VarType = circuit.witnesses[i].var_type();
        if actual != expected {
            return Err(Error::WrongWitnessType { index: i, expected, actual });
        }
        i = i + 1;
    }
    let expected: usize = count_instances(circuit);
    let actual: usize = instances.len();
    if actual != expected {
        return Err(Error::IncorrectPublicInputsCount { expected, actual });
    }
    Ok(())
}

/// One record of an export: what is written for one witness.
#[derive(Clone, Debug)]
pub enum WitnessRecord {
    /// A record without a key: the witness has no value yet.
    Empty,
    /// The key `Base` with the text of a base field element.
    Base(String),
    /// The key `Scalar` with the text of a scalar field element.
    Scalar(String),
}

/// A record as plain data.
pub enum RecordView {
    Empty,
    Base(Seq<char>),
    Scalar(Seq<char>),
}

impl View for WitnessRecord {
    type V = RecordView;

    open spec fn view(&self) -> RecordView {
        match self {
            WitnessRecord::Empty => RecordView::Empty,
            WitnessRecord::Base(text) => RecordView::Base(text@),
            WitnessRecord::Scalar(text) => RecordView::Scalar(text@),
        }
    }
}

/// What an export holds: a record for each witness and a text for each
/// public instance, both in the order supplied.
#[derive(Clone, Debug)]
pub struct WitnessExport {
    pub witnesses: Vec<WitnessRecord>,
    pub instances: Vec<String>,
}

/// Why an export was not made.
#[derive(Clone, Copy, Debug, PartialEq, Eq, Structural)]
pub enum ExportError {
    /// The witness at `index` is of a kind that the export cannot show. The
    /// export itself does not take such a witness: this is the name under
    /// which a caller that found one by `first_unsupported_witness` gives up.
    UnsupportedWitnessVariant { index: usize },
    /// The document could not be written out as text.
    Generate,
}

/// Whether the export can show a witness: only field elements are shown.
pub open spec fn exportable(w: Witness) -> bool {
    w is Base || w is Scalar
}

/// The first witness at or after `from` that the export cannot show.
pub open spec fn first_unexportable(witnesses: Seq<Witness>, from: int) -> Option<int>
    decreases witnesses.len() - from,
{
    if from < 0 || from >= witnesses.len() {
        None
    } else if !exportable(witnesses[from]) {
        Some(from)
    } else {
        first_unexportable(witnesses, from + 1)
    }
}

/// What `first_unexportable` finds cannot be shown and is the first such, and
/// it finds nothing only where every witness can be shown.
pub proof fn lemma_first_unexportable(witnesses: Seq<Witness>, from: int)
    requires
        0 <= from,
    ensures
        match first_unexportable(witnesses, from) {
            Some(i) => from <= i < witnesses.len() && !exportable(witnesses[i]) && forall|j: int|
                from <= j < i ==> exportable(witnesses[j]),
            None => forall|j: int| from <= j < witnesses.len() ==> exportable(witnesses[j]),
        },
    decreases witnesses.len() - from,
{
    if from < witnesses.len() && exportable(witnesses[from]) {
        lemma_first_unexportable(witnesses, from + 1);
    }
}

/// The record written for a witness that the export can show.
pub open spec fn record_of(w: Witness) -> RecordView {
    match w {
        Witness::Base(Some(value)) => RecordView::Base(field_text(value.repr@)),
        Witness::Scalar(Some(value)) => RecordView::Scalar(field_text(value.repr@)),
        _ => RecordView::Empty,
    }
}

/// Whether `export` is the export of these witnesses and instances.
pub open spec fn is_export_of(
    export: WitnessExport,
    witnesses: Seq<Witness>,
    instances: Seq<FieldElement>,
) -> bool {
    &&& export.witnesses@.len() == witnesses.len()
    &&& forall|i: int|
        0 <= i < witnesses.len() ==> (#[trigger] export.witnesses@[i])@ == record_of(witnesses[i])
    &&& export.instances@.len() == instances.len()
    &&& forall|i: int|
        0 <= i < instances.len() ==> (#[trigger] export.instances@[i])@ == field_text(
            instances[i].repr@,
        )
}

/// The index of the first witness that the export cannot show, if any.
pub fn first_unsupported_witness(witnesses: &Vec<Witness>) -> (r: Option<usize>)
    ensures
        match r {
            Some(i) => first_unexportable(witnesses@, 0) == Some(i as int),
            None => first_unexportable(witnesses@, 0) is None,
        },
{
    let mut i: usize = 0;
    while i < witnesses.len()
        invariant
            i <= witnesses.len(),
            first_unexportable(witnesses@, 0) == first_unexportable(witnesses@, i as int),
        decreases witnesses.len() - i,
    {
        match &witnesses[i] {
            Witness::Base(_) => {},
            Witness::Scalar(_) => {},
            _ => {
                return Some(i);
            },
        }
        i = i + 1;
    }
    None
}

/// Builds the export of a witness set: for each witness a record with the
/// text of its value under the name of its field, or an empty record where it
/// has no value; for each instance its text.
///
/// Every witness must be one that the export can show.
pub fn export_document(witnesses: &Vec<Witness>, instances: &Vec<FieldElement>) -> (export:
    WitnessExport)
    requires
        forall|i: int| 0 <= i < witnesses@.len() ==> exportable(witnesses@[i]),
    ensures
        is_export_of(export, witnesses@, instances@),
{
    let mut records: Vec<WitnessRecord> = Vec::new();
    let mut i: usize = 0;
    while i < witnesses.len()
        invariant
            i <= witnesses.len(),
            records@.len() == i,
            forall|j: int| 0 <= j < witnesses@.len() ==> exportable(witnesses@[j]),
            forall|j: int| 0 <= j < i ==> (#[trigger] records@[j])@ == record_of(witnesses@[j]),
        decreases witnesses.len() - i,
    {
        let record = match &witnesses[i] {
            Witness::Base(Some(value)) => WitnessRecord::Base(value.debug_text()),
            Witness::Scalar(Some(value)) => WitnessRecord::Scalar(value.debug_text()),
            _ => WitnessRecord::Empty,
        };
        records.push(record);
        i = i + 1;
    }
    let mut texts: Vec<String> = Vec::new();
    let mut k: usize = 0;
    while k < instances.len()
        invariant
            k <= instances.len(),
            texts@.len() == k,
            forall|j: int| 0 <= j < k ==> (#[trigger] texts@[j])@ == field_text(instances@[j].repr@),
        decreases instances.len() - k,
    {
        texts.push(instances[k].debug_text());
        k = k + 1;
    }
    WitnessExport { witnesses: records, instances: texts }
}

/// What the export returns for what the JSON writer gave: its text, or the
/// error that it gave none.
pub fn export_result(formatted: Option<String>) -> (r: Result<String, ExportError>)
    ensures
        r == match formatted {
            Some(text) => Ok::<String, ExportError>(text),
            None => Err::<String, ExportError>(ExportError::Generate),
        },
{
    match formatted {
        Some(text) => Ok(text),
        None => Err(ExportError::Generate),
    }
}

/// What the JSON object of one record holds: no member for an empty record,
/// else one member, the text under the name of its field.
pub open spec fn record_model(record: RecordView) -> JsonModel {
    match record {
        RecordView::Empty => JsonModel::Record(Map::empty()),
        RecordView::Base(text) => JsonModel::Record(
            Map::empty().insert("Base"@, JsonModel::Text(text)),
        ),
        RecordView::Scalar(text) => JsonModel::Record(
            Map::empty().insert("Scalar"@, JsonModel::Text(text)),
        ),
    }
}

/// What the JSON document of an export holds: under `witnesses` the list of
/// the records' objects, under `instances` the list of the instances' texts,
/// both in the order of the export, and no other member.
pub open spec fn export_model(export: WitnessExport) -> JsonModel {
    JsonModel::Record(
        Map::empty().insert(
            "witnesses"@,
            JsonModel::List(
                Seq::new(export.witnesses@.len(), |i: int| record_model(export.witnesses@[i]@)),
            ),
        ).insert(
            "instances"@,
            JsonModel::List(
                Seq::new(
                    export.instances@.len(),
                    |i: int| JsonModel::Text(export.instances@[i]@),
                ),
            ),
        ),
    )
}

fn record_to_json(record: &WitnessRecord) -> (value: JsonValue)
    ensures
        json_model(value) == record_model(record@),
        json_numberless(value),
{
    let mut entries: Vec<(String, JsonValue)> = Vec::new();
    proof {
        assert(members_of(entries@) =~= Map::empty());
    }
    match record {
        WitnessRecord::Empty => {},
        WitnessRecord::Base(text) => {
            entries.push((String::from_str("Base"), json_string(text.clone())));
            proof {
                assert(entries@.drop_last() =~= Seq::empty());
                assert(members_of(entries@.drop_last()) =~= Map::empty());
            }
        },
        WitnessRecord::Scalar(text) => {
            entries.push((String::from_str("Scalar"), json_string(text.clone())));
            proof {
                assert(entries@.drop_last() =~= Seq::empty());
                assert(members_of(entries@.drop_last()) =~= Map::empty());
            }
        },
    }
    json_object(entries)
}

fn export_to_json(export: &WitnessExport) -> (value: JsonValue)
    ensures
        json_model(value) == export_model(*export),
        json_numberless(value),
{
    let mut records: Vec<JsonValue> = Vec::new();
    let mut i: usize = 0;
    while i < export.witnesses.len()
        invariant
            i <= export.witnesses.len(),
            records@.len() == i,
            forall|j: int|
                0 <= j < i ==> json_model(#[trigger] records@[j]) == record_model(
                    export.witnesses@[j]@,
                ),
            forall|j: int| 0 <= j < i ==> json_numberless(#[trigger] records@[j]),
        decreases export.witnesses.len() - i,
    {
        records.push(record_to_json(&export.witnesses[i]));
        i = i + 1;
    }
    let mut texts: Vec<JsonValue> = Vec::new();
    let mut k: usize = 0;
    while k < export.instances.len()
        invariant
            k <= export.instances.len(),
            texts@.len() == k,
            forall|j: int|
                0 <= j < k ==> json_model(#[trigger] texts@[j]) == JsonModel::Text(
                    export.instances@[j]@,
                ),
            forall|j: int| 0 <= j < k ==> json_numberless(#[trigger] texts@[j]),
        decreases export.instances.len() - k,
    {
        texts.push(json_string(export.instances[k].clone()));
        k = k + 1;
    }
    proof {
        assert(json_models(records@) =~= Seq::new(
            export.witnesses@.len(),
            |i: int| record_model(export.witnesses@[i]@),
        ));
        assert(json_models(texts@) =~= Seq::new(
            export.instances@.len(),
            |i: int| JsonModel::Text(export.instances@[i]@),
        ));
    }
    let witnesses_json = json_array(records);
    let instances_json = json_array(texts);
    let ghost witnesses_model = json_model(witnesses_json);
    let ghost instances_model = json_model(instances_json);
    let mut entries: Vec<(String, JsonValue)> = Vec::new();
    entries.push((String::from_str("witnesses"), witnesses_json));
    proof {
        assert(entries@.drop_last() =~= Seq::empty());
        assert(members_of(entries@.drop_last()) =~= Map::empty());
        assert(members_of(entries@) == Map::<Seq<char>, JsonModel>::empty().insert(
            "witnesses"@,
            witnesses_model,
        ));
    }
    let ghost first = entries@;
    entries.push((String::from_str("instances"), instances_json));
    proof {
        reveal_strlit("witnesses");
        reveal_strlit("instances");
        assert("witnesses"@[0] != "instances"@[0]);
        assert(entries@[0].0@ != entries@[1].0@);
        assert(entries@.drop_last() =~= first);
        assert(members_of(entries@) == members_of(first).insert("instances"@, instances_model));
    }
    json_object(entries)
}

/// What the JSON document of a witness set and its instances holds: under
/// `witnesses` a list with one object for each witness, which has the text of
/// the witness's value under the name of its field, or no member where the
/// witness has no value; under `instances` the list of the instances' texts;
/// both in the order supplied, and no other member.
pub open spec fn document_model(witnesses: Seq<Witness>, instances: Seq<FieldElement>) -> JsonModel {
    JsonModel::Record(
        Map::empty().insert(
            "witnesses"@,
            JsonModel::List(
                Seq::new(witnesses.len(), |i: int| record_model(record_of(witnesses[i]))),
            ),
        ).insert(
            "instances"@,
            JsonModel::List(
                Seq::new(instances.len(), |i: int| JsonModel::Text(field_text(instances[i].repr@))),
            ),
        ),
    )
}

/// The document of an export of a witness set is the document of the
/// witness set.
pub proof fn lemma_export_model(
    export: WitnessExport,
    witnesses: Seq<Witness>,
    instances: Seq<FieldElement>,
)
    requires
        is_export_of(export, witnesses, instances),
    ensures
        export_model(export) == document_model(witnesses, instances),
{
    assert(Seq::new(export.witnesses@.len(), |i: int| record_model(export.witnesses@[i]@))
        =~= Seq::new(witnesses.len(), |i: int| record_model(record_of(witnesses[i]))));
    assert(Seq::new(export.instances@.len(), |i: int| JsonModel::Text(export.instances@[i]@))
        =~= Seq::new(instances.len(), |i: int| JsonModel::Text(field_text(instances[i].repr@))));
}

/// Writes a witness set and its public instances as a JSON document with the
/// fields `witnesses` and `instances`, for offline debugging tools.
///
/// Every witness must be a field element: the export cannot show another
/// kind, and `first_unsupported_witness` tells whether there is one. The
/// export is built and handed to the JSON writer, which cannot refuse a
/// document of texts, lists and objects: a text is always returned, and it
/// is the document of these witnesses and instances as the writer writes it.
pub fn export_witness_json(witnesses: &Vec<Witness>, instances: &Vec<FieldElement>) -> (r: Result<
    String,
    ExportError,
>)
    requires
        first_unexportable(witnesses@, 0) is None,
    ensures
        r matches Ok(text) && json_texts(document_model(witnesses@, instances@)).contains(text@),
{
    proof {
        lemma_first_unexportable(witnesses@, 0);
    }
    let export = export_document(witnesses, instances);
    proof {
        lemma_export_model(export, witnesses@, instances@);
    }
    export_result(json_format(&export_to_json(&export)))
}

} // verus!
