//! Whole-schema laws, proved from the validation pipeline's definitions.

use vstd::prelude::*;
use crate::ident::{is_reserved, valid_postgres_name};
use crate::schema::{EntityView, EnumView, FieldView, RelationshipView, SchemaView, has_entity, relationships_of};
use crate::validate::{duplicate_names, entities_rels_error, entities_shape_error, entity_names_seq, entity_new_error, enum_names_seq, enum_new_error, enum_values_concat, field_names_concat, field_shape_error, fields_shape_error, invalid_name_offenders, lemma_duplicate_names_empty, lemma_filtered_empty, namespace_collisions, rel_error, rels_error, reserved_word_offenders, schema_names, schema_new_error, validate_error};

verus! {

/// Uniqueness law: on a schema that construction and validation accept,
/// entity names are pairwise distinct, enum names are pairwise distinct,
/// and no name is both an entity and an enum.
pub proof fn lemma_validated_names_distinct(s: SchemaView)
    requires
        schema_new_error(s.entities, s.enums) is None,
    ensures
        forall|i: int, j: int|
            0 <= i < j < s.entities.len() ==> s.entities[i].name != s.entities[j].name,
        forall|i: int, j: int| 0 <= i < j < s.enums.len() ==> s.enums[i].name != s.enums[j].name,
        forall|i: int, j: int|
            0 <= i < s.enums.len() && 0 <= j < s.entities.len() ==> s.enums[i].name
                != s.entities[j].name,
{
    let en = s.entities.map_values(|e: EntityView| e.name);
    let gn = s.enums.map_values(|e: EnumView| e.name);
    let v = SchemaView { entities: s.entities, enums: s.enums };
    assert(v =~= s);
    assert(duplicate_names(en).len() == 0);
    lemma_duplicate_names_empty(en);
    assert forall|i: int, j: int|
        0 <= i < j < s.entities.len() implies s.entities[i].name != s.entities[j].name by {
        assert(en[i] == s.entities[i].name);
        assert(en[j] == s.entities[j].name);
    }
    assert(duplicate_names(gn).len() == 0);
    lemma_duplicate_names_empty(gn);
    assert forall|i: int, j: int|
        0 <= i < j < s.enums.len() implies s.enums[i].name != s.enums[j].name by {
        assert(gn[i] == s.enums[i].name);
        assert(gn[j] == s.enums[j].name);
    }
    assert(validate_error(s) is None);
    assert(namespace_collisions(s).len() == 0);
    lemma_filtered_empty(enum_names_seq(s), |n: Seq<char>| has_entity(s, n));
    assert forall|i: int, j: int|
        0 <= i < s.enums.len() && 0 <= j < s.entities.len() implies s.enums[i].name
        != s.entities[j].name by {
        assert(enum_names_seq(s)[i] == s.enums[i].name);
        if s.enums[i].name == s.entities[j].name {
            assert(has_entity(s, s.enums[i].name));
        }
    }
}

/// Reserved-word law: the reserved-word pass flags nothing exactly when no
/// name the schema binds is literally a reserved word; a schema whose names
/// avoid the reserved words passes the check unaffected.
pub proof fn lemma_reserved_words_exact(s: SchemaView)
    ensures
        reserved_word_offenders(s).len() == 0 <==> (forall|i: int|
            0 <= i < schema_names(s).len() ==> !is_reserved(schema_names(s)[i])),
{
    lemma_filtered_empty(schema_names(s), |n: Seq<char>| is_reserved(n));
}


/// Enum-value uniqueness law: an enum whose construction checks pass holds
/// pairwise distinct values.
pub proof fn lemma_enum_values_distinct(name: Seq<char>, values: Seq<Seq<char>>)
    requires
        enum_new_error(name, values) is None,
    ensures
        forall|i: int, j: int| 0 <= i < j < values.len() ==> values[i] != values[j],
{
    lemma_duplicate_names_empty(values);
}

/// Field-name uniqueness law: an entity whose construction check passes
/// holds pairwise distinct field names.
pub proof fn lemma_entity_field_names_distinct(name: Seq<char>, field_names: Seq<Seq<char>>)
    requires
        entity_new_error(name, field_names) is None,
    ensures
        forall|i: int, j: int|
            0 <= i < j < field_names.len() ==> field_names[i] != field_names[j],
{
    lemma_duplicate_names_empty(field_names);
}

/// Identifier-grammar law: an enum whose construction checks pass bears a
/// name and values that all match the storage-identifier grammar.
pub proof fn lemma_enum_names_well_formed(name: Seq<char>, values: Seq<Seq<char>>)
    requires
        enum_new_error(name, values) is None,
    ensures
        valid_postgres_name(name),
        forall|i: int| 0 <= i < values.len() ==> valid_postgres_name(values[i]),
{
    let all = seq![name] + values;
    lemma_filtered_empty(all, |n: Seq<char>| !valid_postgres_name(n));
    assert(all[0] == name);
    assert forall|i: int| 0 <= i < values.len() implies valid_postgres_name(values[i]) by {
        assert(all[i + 1] == values[i]);
    }
}

proof fn lemma_rels_error_none(s: SchemaView, ename: Seq<char>, rs: Seq<RelationshipView>)
    requires
        rels_error(s, ename, rs) is None,
    ensures
        forall|k: int| 0 <= k < rs.len() ==> rel_error(s, ename, #[trigger] rs[k]) is None,
    decreases rs.len(),
{
    if rs.len() > 0 {
        lemma_rels_error_none(s, ename, rs.drop_first());
        assert forall|k: int| 0 <= k < rs.len() implies rel_error(s, ename, #[trigger] rs[k])
            is None by {
            if k > 0 {
                assert(rs.drop_first()[k - 1] == rs[k]);
            }
        }
    }
}

/// Referential-existence law: on a schema the pipeline accepts, every
/// relationship edge of every entity checks out: every forward reference
/// resolves to exactly one definition, and every derived edge targets an
/// entity that holds the named field with a legal relational-key type.
pub proof fn lemma_validated_references_resolve(s: SchemaView)
    requires
        validate_error(s) is None,
    ensures
        forall|i: int, k: int|
            0 <= i < s.entities.len() && 0 <= k < relationships_of(s.entities[i]).len()
                ==> rel_error(
                s,
                s.entities[i].name,
                #[trigger] relationships_of(s.entities[i])[k],
            ) is None,
{
    assert(entities_rels_error(s, s.entities) is None);
    lemma_entities_rels_error_none(s, s.entities);
}

proof fn lemma_entities_rels_error_none(s: SchemaView, es: Seq<EntityView>)
    requires
        entities_rels_error(s, es) is None,
    ensures
        forall|i: int, k: int|
            0 <= i < es.len() && 0 <= k < relationships_of(es[i]).len() ==> rel_error(
                s,
                es[i].name,
                #[trigger] relationships_of(es[i])[k],
            ) is None,
    decreases es.len(),
{
    if es.len() > 0 {
        lemma_rels_error_none(s, es[0].name, relationships_of(es[0]));
        lemma_entities_rels_error_none(s, es.drop_first());
        assert forall|i: int, k: int|
            0 <= i < es.len() && 0 <= k < relationships_of(es[i]).len() implies rel_error(
            s,
            es[i].name,
            #[trigger] relationships_of(es[i])[k],
        ) is None by {
            if i > 0 {
                assert(es.drop_first()[i - 1] == es[i]);
            }
        }
    }
}

proof fn lemma_fields_shape_error_none(s: SchemaView, fs: Seq<crate::schema::FieldView>)
    requires
        fields_shape_error(s, fs) is None,
    ensures
        forall|k: int|
            0 <= k < fs.len() ==> field_shape_error(s, (#[trigger] fs[k]).field_type) is None,
    decreases fs.len(),
{
    if fs.len() > 0 {
        lemma_fields_shape_error_none(s, fs.drop_first());
        assert forall|k: int|
            0 <= k < fs.len() implies field_shape_error(s, (#[trigger] fs[k]).field_type)
            is None by {
            if k > 0 {
                assert(fs.drop_first()[k - 1] == fs[k]);
            }
        }
    }
}

/// Field-shape law: on a schema the pipeline accepts, every field's type
/// satisfies the list and non-null composition rules.
pub proof fn lemma_validated_shapes_legal(s: SchemaView)
    requires
        validate_error(s) is None,
    ensures
        forall|i: int, k: int|
            0 <= i < s.entities.len() && 0 <= k < s.entities[i].fields.len()
                ==> field_shape_error(s, (#[trigger] s.entities[i].fields[k]).field_type)
                is None,
{
    assert(entities_shape_error(s, s.entities) is None);
    lemma_entities_shape_error_none(s, s.entities);
}

proof fn lemma_entities_shape_error_none(s: SchemaView, es: Seq<EntityView>)
    requires
        entities_shape_error(s, es) is None,
    ensures
        forall|i: int, k: int|
            0 <= i < es.len() && 0 <= k < es[i].fields.len() ==> field_shape_error(
                s,
                (#[trigger] es[i].fields[k]).field_type,
            ) is None,
    decreases es.len(),
{
    if es.len() > 0 {
        lemma_fields_shape_error_none(s, es[0].fields);
        lemma_entities_shape_error_none(s, es.drop_first());
        assert forall|i: int, k: int|
            0 <= i < es.len() && 0 <= k < es[i].fields.len() implies field_shape_error(
            s,
            (#[trigger] es[i].fields[k]).field_type,
        ) is None by {
            if i > 0 {
                assert(es.drop_first()[i - 1] == es[i]);
            }
        }
    }
}


proof fn lemma_enum_values_concat_contains(es: Seq<EnumView>, i: int, k: int)
    requires
        0 <= i < es.len(),
        0 <= k < es[i].values.len(),
    ensures
        enum_values_concat(es).contains(es[i].values[k]),
    decreases es.len(),
{
    if i == es.len() - 1 {
        let off = enum_values_concat(es.drop_last()).len();
        assert(es.last() == es[i]);
        assert(enum_values_concat(es)[off + k] == es[i].values[k]);
    } else {
        lemma_enum_values_concat_contains(es.drop_last(), i, k);
        assert(es.drop_last()[i] == es[i]);
        let pre = enum_values_concat(es.drop_last());
        let j = choose|j: int| 0 <= j < pre.len() && pre[j] == es[i].values[k];
        assert(enum_values_concat(es)[j] == es[i].values[k]);
    }
}

proof fn lemma_field_names_concat_contains(es: Seq<EntityView>, i: int, k: int)
    requires
        0 <= i < es.len(),
        0 <= k < es[i].fields.len(),
    ensures
        field_names_concat(es).contains(es[i].fields[k].name),
    decreases es.len(),
{
    if i == es.len() - 1 {
        let off = field_names_concat(es.drop_last()).len();
        assert(es.last() == es[i]);
        assert(es[i].fields.map_values(|f: FieldView| f.name)[k] == es[i].fields[k].name);
        assert(field_names_concat(es)[off + k] == es[i].fields[k].name);
    } else {
        lemma_field_names_concat_contains(es.drop_last(), i, k);
        assert(es.drop_last()[i] == es[i]);
        let pre = field_names_concat(es.drop_last());
        let j = choose|j: int| 0 <= j < pre.len() && pre[j] == es[i].fields[k].name;
        assert(field_names_concat(es)[j] == es[i].fields[k].name);
    }
}

/// Identifier-grammar law: on a schema the pipeline accepts, every name it
/// binds — enum names, enum values, entity names and field names — matches
/// the storage-identifier grammar.
pub proof fn lemma_validated_identifiers_well_formed(s: SchemaView)
    requires
        validate_error(s) is None,
    ensures
        forall|i: int| 0 <= i < s.enums.len() ==> valid_postgres_name(#[trigger] s.enums[i].name),
        forall|i: int, k: int|
            0 <= i < s.enums.len() && 0 <= k < s.enums[i].values.len() ==> valid_postgres_name(
                #[trigger] s.enums[i].values[k],
            ),
        forall|i: int|
            0 <= i < s.entities.len() ==> valid_postgres_name(#[trigger] s.entities[i].name),
        forall|i: int, k: int|
            0 <= i < s.entities.len() && 0 <= k < s.entities[i].fields.len()
                ==> valid_postgres_name((#[trigger] s.entities[i].fields[k]).name),
{
    assert(invalid_name_offenders(s).len() == 0);
    lemma_filtered_empty(schema_names(s), |n: Seq<char>| !valid_postgres_name(n));
    let a = enum_names_seq(s);
    let b = enum_values_concat(s.enums);
    let c = entity_names_seq(s);
    let d = field_names_concat(s.entities);
    assert forall|i: int| 0 <= i < s.enums.len() implies valid_postgres_name(
        #[trigger] s.enums[i].name,
    ) by {
        assert(schema_names(s)[i] == a[i]);
        assert(a[i] == s.enums[i].name);
    }
    assert forall|i: int, k: int|
        0 <= i < s.enums.len() && 0 <= k < s.enums[i].values.len() implies valid_postgres_name(
        #[trigger] s.enums[i].values[k],
    ) by {
        lemma_enum_values_concat_contains(s.enums, i, k);
        let j = choose|j: int| 0 <= j < b.len() && b[j] == s.enums[i].values[k];
        assert(schema_names(s)[a.len() + j] == b[j]);
    }
    assert forall|i: int| 0 <= i < s.entities.len() implies valid_postgres_name(
        #[trigger] s.entities[i].name,
    ) by {
        assert(schema_names(s)[a.len() + b.len() + i] == c[i]);
        assert(c[i] == s.entities[i].name);
    }
    assert forall|i: int, k: int|
        0 <= i < s.entities.len() && 0 <= k < s.entities[i].fields.len() implies
        valid_postgres_name((#[trigger] s.entities[i].fields[k]).name) by {
        lemma_field_names_concat_contains(s.entities, i, k);
        let j = choose|j: int| 0 <= j < d.len() && d[j] == s.entities[i].fields[k].name;
        assert(schema_names(s)[a.len() + b.len() + c.len() + j] == d[j]);
    }
}

/// Model-invariant law: a schema whose parts passed their construction
/// checks and that the pipeline accepts has pairwise distinct entity names,
/// enum names, a disjoint union of the two, pairwise distinct field names
/// within each entity, and pairwise distinct values within each enum.
pub proof fn lemma_constructed_schema_invariants(s: SchemaView)
    requires
        schema_new_error(s.entities, s.enums) is None,
        forall|i: int|
            0 <= i < s.entities.len() ==> entity_new_error(
                (#[trigger] s.entities[i]).name,
                s.entities[i].fields.map_values(|f: FieldView| f.name),
            ) is None,
        forall|i: int|
            0 <= i < s.enums.len() ==> enum_new_error(
                (#[trigger] s.enums[i]).name,
                s.enums[i].values,
            ) is None,
    ensures
        forall|i: int, j: int|
            0 <= i < j < s.entities.len() ==> s.entities[i].name != s.entities[j].name,
        forall|i: int, j: int| 0 <= i < j < s.enums.len() ==> s.enums[i].name != s.enums[j].name,
        forall|i: int, j: int|
            0 <= i < s.enums.len() && 0 <= j < s.entities.len() ==> s.enums[i].name
                != s.entities[j].name,
        forall|i: int, k1: int, k2: int|
            0 <= i < s.entities.len() && 0 <= k1 < k2 < s.entities[i].fields.len()
                ==> (#[trigger] s.entities[i].fields[k1]).name != (
                #[trigger] s.entities[i].fields[k2]).name,
        forall|i: int, k1: int, k2: int|
            0 <= i < s.enums.len() && 0 <= k1 < k2 < s.enums[i].values.len()
                ==> (#[trigger] s.enums[i].values[k1]) != (#[trigger] s.enums[i].values[k2]),
{
    lemma_validated_names_distinct(s);
    assert forall|i: int, k1: int, k2: int|
        0 <= i < s.entities.len() && 0 <= k1 < k2 < s.entities[i].fields.len() implies
        (#[trigger] s.entities[i].fields[k1]).name != (#[trigger] s.entities[i].fields[k2]).name by {
        let fnames = s.entities[i].fields.map_values(|f: FieldView| f.name);
        lemma_entity_field_names_distinct(s.entities[i].name, fnames);
        assert(fnames[k1] == s.entities[i].fields[k1].name);
        assert(fnames[k2] == s.entities[i].fields[k2].name);
    }
    assert forall|i: int, k1: int, k2: int|
        0 <= i < s.enums.len() && 0 <= k1 < k2 < s.enums[i].values.len() implies (
        #[trigger] s.enums[i].values[k1]) != (#[trigger] s.enums[i].values[k2]) by {
        lemma_enum_values_distinct(s.enums[i].name, s.enums[i].values);
    }
}

} // verus!
