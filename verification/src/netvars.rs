//! The netvar table: every networked field of the game's receive tables,
//! keyed by a weighted character sum of its table name and field name, with
//! the field's byte offset as value.
use std::collections::HashMap;
use vstd::prelude::*;

verus! {

broadcast use vstd::std_specs::hash::group_hash_axioms;

/// One networked field of a receive table, as read from the game.
pub struct RecvProp {
    /// The field's name, such as `m_iHealth`.
    pub var_name: String,
    /// The field's byte offset inside its object.
    pub offset: i32,
    /// The nested table that the field holds, if it holds one.
    pub data_table: Option<Box<RecvTable>>,
}

/// A receive table: a named list of networked fields.
pub struct RecvTable {
    pub props: Vec<RecvProp>,
    pub net_table_name: String,
}

/// One entry of the game's list of client classes.
pub struct ClientClass {
    pub recv_table: RecvTable,
}

/// `sum of c * i` over the characters `c` of `s` at their positions `i`.
pub open spec fn weighted_char_sum(s: Seq<char>) -> int
    decreases s.len(),
{
    if s.len() == 0 {
        0
    } else {
        weighted_char_sum(s.drop_last()) + (s.last() as u32 as int) * (s.len() - 1)
    }
}

/// The key under which a field of a table is stored.
pub open spec fn spec_netvar_sum(table_name: Seq<char>, netvar_name: Seq<char>) -> int {
    weighted_char_sum(table_name) + weighted_char_sum(netvar_name)
}

proof fn lemma_weighted_nonneg(s: Seq<char>)
    ensures
        0 <= weighted_char_sum(s),
    decreases s.len(),
{
    if s.len() > 0 {
        lemma_weighted_nonneg(s.drop_last());
        assert(0 <= (s.last() as u32 as int) * (s.len() - 1)) by (nonlinear_arith)
            requires
                0 <= s.len() - 1,
                0 <= (s.last() as u32 as int),
        ;
    }
}

proof fn lemma_weighted_prefix(s: Seq<char>, k: int)
    requires
        0 <= k <= s.len(),
    ensures
        0 <= weighted_char_sum(s.take(k)) <= weighted_char_sum(s),
    decreases s.len() - k,
{
    if k == s.len() {
        assert(s.take(k) =~= s);
        lemma_weighted_nonneg(s);
    } else {
        lemma_weighted_prefix(s, k + 1);
        lemma_weighted_nonneg(s.take(k));
        assert(s.take(k + 1).drop_last() =~= s.take(k));
        assert(s.take(k + 1).last() == s[k]);
        assert(0 <= (s[k] as u32 as int) * k) by (nonlinear_arith)
            requires
                0 <= k,
                0 <= (s[k] as u32 as int),
        ;
    }
}

/// Adds the weighted character sum of `s` to `acc`.
fn add_weighted_chars(acc: usize, s: &str) -> (r: usize)
    requires
        acc + weighted_char_sum(s@) <= usize::MAX,
    ensures
        r == acc + weighted_char_sum(s@),
{
    let len = s.unicode_len();
    let mut sum: usize = acc;
    let mut i: usize = 0;
    for c in it: s.chars()
        invariant
            len == s@.len(),
            i == it.index(),
            it.seq() == s@,
            sum == acc + weighted_char_sum(s@.take(i as int)),
            acc + weighted_char_sum(s@) <= usize::MAX,
    {
        proof {
            broadcast use vstd::string::axiom_spec_iter;
            assert(c == s@[i as int]);
            lemma_weighted_prefix(s@, i + 1);
            assert(s@.take(i + 1).drop_last() =~= s@.take(i as int));
        }
        sum += c as u32 as usize * i;
        i += 1;
    }
    proof {
        assert(s@.take(i as int) =~= s@);
    }
    sum
}

/// The key of the field `netvar_name` of the table `table_name`: each
/// character weighted by its position in its own name, summed over both
/// names.
pub fn netvar_sum(table_name: &str, netvar_name: &str) -> (r: usize)
    requires
        spec_netvar_sum(table_name@, netvar_name@) <= usize::MAX,
    ensures
        r == spec_netvar_sum(table_name@, netvar_name@),
{
    proof {
        lemma_weighted_nonneg(table_name@);
        lemma_weighted_nonneg(netvar_name@);
    }
    let sum = add_weighted_chars(0, table_name);
    add_weighted_chars(sum, netvar_name)
}


/// What the walk of one field records, in order: the field itself, keyed
/// under `table_name`, then every field of its nested table, if it has one.
pub open spec fn prop_entries(table_name: Seq<char>, prop: RecvProp) -> Seq<(int, int)>
    decreases prop, 2int,
{
    seq![(spec_netvar_sum(table_name, prop.var_name@), prop.offset as int)] + nested_table_entries(
        table_name,
        prop,
    )
}

/// What the walk of the table nested in `prop` records; nothing if it has
/// none.
pub open spec fn nested_table_entries(table_name: Seq<char>, prop: RecvProp) -> Seq<(int, int)>
    decreases prop, 1int,
{
    match prop.data_table {
        Some(nested) => table_entries(table_name, *nested),
        None => Seq::empty(),
    }
}

/// What the walk of the first `k` fields of `table` records.
pub open spec fn props_entries(table_name: Seq<char>, table: RecvTable, k: int) -> Seq<(int, int)>
    decreases table, k,
{
    if k <= 0 || k > table.props@.len() {
        Seq::empty()
    } else {
        proof {
            assert(decreases_to!(table => table.props));
            assert(decreases_to!(table.props => table.props@));
            assert(decreases_to!(table.props@ => table.props@[k - 1]));
        }
        props_entries(table_name, table, k - 1) + prop_entries(table_name, table.props@[k - 1])
    }
}

/// What the walk of `table` records, every key built with `table_name`.
pub open spec fn table_entries(table_name: Seq<char>, table: RecvTable) -> Seq<(int, int)>
    decreases table, table.props@.len() + 1,
{
    props_entries(table_name, table, table.props@.len() as int)
}

/// What the walk of all the client classes records: each class's table,
/// under that table's own name, in list order.
pub open spec fn classes_entries(classes: Seq<ClientClass>) -> Seq<(int, int)>
    decreases classes.len(),
{
    if classes.len() == 0 {
        Seq::empty()
    } else {
        let table = classes.last().recv_table;
        classes_entries(classes.drop_last()) + table_entries(table.net_table_name@, table)
    }
}

/// Every recorded key fits a `usize` and every recorded offset is not
/// negative.
pub open spec fn entries_storable(entries: Seq<(int, int)>) -> bool {
    forall|i: int|
        0 <= i < entries.len() ==> 0 <= #[trigger] entries[i].0 <= usize::MAX && 0
            <= entries[i].1 <= usize::MAX
}

/// `map` with the entries inserted one after another, a later entry
/// replacing an earlier one of the same key.
pub open spec fn insert_entries(map: Map<usize, usize>, entries: Seq<(int, int)>) -> Map<
    usize,
    usize,
>
    decreases entries.len(),
{
    if entries.len() == 0 {
        map
    } else {
        insert_entries(map, entries.drop_last()).insert(
            entries.last().0 as usize,
            entries.last().1 as usize,
        )
    }
}

proof fn lemma_insert_entries_append(
    map: Map<usize, usize>,
    a: Seq<(int, int)>,
    b: Seq<(int, int)>,
)
    ensures
        insert_entries(map, a + b) == insert_entries(insert_entries(map, a), b),
    decreases b.len(),
{
    if b.len() == 0 {
        assert(a + b =~= a);
    } else {
        lemma_insert_entries_append(map, a, b.drop_last());
        assert((a + b).drop_last() =~= a + b.drop_last());
        assert((a + b).last() == b.last());
    }
}

proof fn lemma_storable_split(a: Seq<(int, int)>, b: Seq<(int, int)>)
    requires
        entries_storable(a + b),
    ensures
        entries_storable(a),
        entries_storable(b),
{
    assert forall|i: int| 0 <= i < a.len() implies 0 <= #[trigger] a[i].0 <= usize::MAX && 0
        <= a[i].1 <= usize::MAX by {
        assert((a + b)[i] == a[i]);
    }
    assert forall|i: int| 0 <= i < b.len() implies 0 <= #[trigger] b[i].0 <= usize::MAX && 0
        <= b[i].1 <= usize::MAX by {
        assert((a + b)[a.len() + i] == b[i]);
    }
}

/// Records every field of `recv_table`, and of the tables nested in it, in
/// `hashmap`, keyed under `table_name`.
pub fn dump_table(recv_table: &RecvTable, table_name: &str, hashmap: &mut HashMap<usize, usize>)
    requires
        entries_storable(table_entries(table_name@, *recv_table)),
    ensures
        final(hashmap)@ == insert_entries(old(hashmap)@, table_entries(table_name@, *recv_table)),
    decreases *recv_table,
{
    let nprops = recv_table.props.len();
    for i in 0..nprops
        invariant
            nprops == recv_table.props@.len(),
            entries_storable(table_entries(table_name@, *recv_table)),
            hashmap@ == insert_entries(
                old(hashmap)@,
                props_entries(table_name@, *recv_table, i as int),
            ),
    {
        let prop = &recv_table.props[i];
        let ghost done = props_entries(table_name@, *recv_table, i as int);
        let ghost here = prop_entries(table_name@, *prop);
        let ghost head = seq![(spec_netvar_sum(table_name@, prop.var_name@), prop.offset as int)];
        let ghost nested_entries = nested_table_entries(table_name@, *prop);
        proof {
            assert(props_entries(table_name@, *recv_table, i + 1) == done + here);
            lemma_props_prefix_storable(table_name@, *recv_table, i + 1, nprops as int);
            lemma_storable_split(done, here);
            assert(here == head + nested_entries);
            lemma_storable_split(head, nested_entries);
            assert(head[0] == here[0]);
            assert(0 <= head[0].0 <= usize::MAX && 0 <= head[0].1 <= usize::MAX);
        }
        let key = netvar_sum(table_name, prop.var_name.as_str());
        let offset: usize = prop.offset as usize;
        hashmap.insert(key, offset);
        proof {
            assert((done + head).drop_last() =~= done);
            assert(hashmap@ == insert_entries(old(hashmap)@, done + head));
        }
        match &prop.data_table {
            Some(nested) => {
                dump_table(nested, table_name, hashmap);
            },
            None => {},
        }
        proof {
            lemma_insert_entries_append(old(hashmap)@, done + head, nested_entries);
            assert(done + head + nested_entries =~= done + here);
        }
    }
}

proof fn lemma_props_prefix_storable(table_name: Seq<char>, table: RecvTable, k: int, j: int)
    requires
        0 <= k <= j <= table.props@.len(),
        entries_storable(props_entries(table_name, table, j)),
    ensures
        entries_storable(props_entries(table_name, table, k)),
    decreases j - k,
{
    if k < j {
        lemma_storable_split(
            props_entries(table_name, table, j - 1),
            prop_entries(table_name, table.props@[j - 1]),
        );
        lemma_props_prefix_storable(table_name, table, k, j - 1);
    }
}

/// Builds the netvar table from the game's list of client classes: every
/// field of every class's receive table, nested tables included, keyed
/// under the name of the class's table.
pub fn dump(classes: &Vec<ClientClass>) -> (hashmap: HashMap<usize, usize>)
    requires
        entries_storable(classes_entries(classes@)),
    ensures
        hashmap@ == insert_entries(Map::empty(), classes_entries(classes@)),
{
    let mut hashmap: HashMap<usize, usize> = HashMap::new();
    let nclasses = classes.len();
    for i in 0..nclasses
        invariant
            nclasses == classes@.len(),
            entries_storable(classes_entries(classes@)),
            hashmap@ == insert_entries(Map::empty(), classes_entries(classes@.take(i as int))),
    {
        let recv_table = &classes[i].recv_table;
        let table_name = recv_table.net_table_name.as_str();
        proof {
            let done = classes_entries(classes@.take(i as int));
            let here = table_entries(recv_table.net_table_name@, *recv_table);
            assert(classes@.take(i + 1).drop_last() =~= classes@.take(i as int));
            assert(classes_entries(classes@.take(i + 1)) == done + here);
            lemma_classes_prefix_storable(classes@, i + 1);
            lemma_storable_split(done, here);
            lemma_insert_entries_append(Map::empty(), done, here);
        }
        dump_table(recv_table, table_name, &mut hashmap);
    }
    proof {
        assert(classes@.take(nclasses as int) =~= classes@);
    }
    hashmap
}

proof fn lemma_classes_prefix_storable(classes: Seq<ClientClass>, k: int)
    requires
        0 <= k <= classes.len(),
        entries_storable(classes_entries(classes)),
    ensures
        entries_storable(classes_entries(classes.take(k))),
    decreases classes.len() - k,
{
    if k < classes.len() {
        lemma_classes_prefix_storable(classes, k + 1);
        let longer = classes.take(k + 1);
        assert(longer.drop_last() =~= classes.take(k));
        lemma_storable_split(
            classes_entries(longer.drop_last()),
            table_entries(longer.last().recv_table.net_table_name@, longer.last().recv_table),
        );
    } else {
        assert(classes.take(k) =~= classes);
    }
}

/// What a lookup of the field `netvar_name` of the table `table_name` in
/// `netvars` gives.
pub open spec fn spec_get(
    netvars: Map<usize, usize>,
    table_name: Seq<char>,
    netvar_name: Seq<char>,
) -> Option<usize> {
    let key = spec_netvar_sum(table_name, netvar_name) as usize;
    if netvars.contains_key(key) {
        Some(netvars[key])
    } else {
        None
    }
}

/// The offset of the field `netvar_name` of the table `table_name`, or
/// `None` where the table holds nothing under its key.
pub fn get(netvars: &HashMap<usize, usize>, table_name: &str, netvar_name: &str) -> (r: Option<
    usize,
>)
    requires
        spec_netvar_sum(table_name@, netvar_name@) <= usize::MAX,
    ensures
        r == spec_get(netvars@, table_name@, netvar_name@),
{
    let key = netvar_sum(table_name, netvar_name);
    match netvars.get(&key) {
        Some(offset) => Some(*offset),
        None => None,
    }
}

/// The offset that the last entry recorded under `key` holds, if any entry
/// is recorded under it.
pub open spec fn last_offset(entries: Seq<(int, int)>, key: int) -> Option<int>
    decreases entries.len(),
{
    if entries.len() == 0 {
        None
    } else if entries.last().0 == key {
        Some(entries.last().1)
    } else {
        last_offset(entries.drop_last(), key)
    }
}

proof fn lemma_insert_entries_lookup(map: Map<usize, usize>, entries: Seq<(int, int)>, key: int)
    requires
        entries_storable(entries),
        0 <= key <= usize::MAX,
    ensures
        ({
            let m = insert_entries(map, entries);
            match last_offset(entries, key) {
                Some(offset) => m.contains_key(key as usize) && m[key as usize] == offset,
                None => m.contains_key(key as usize) == map.contains_key(key as usize) && (
                map.contains_key(key as usize) ==> m[key as usize] == map[key as usize]),
            }
        }),
    decreases entries.len(),
{
    if entries.len() > 0 {
        let last = entries.last();
        assert(entries[entries.len() - 1] == last);
        assert(0 <= last.0 <= usize::MAX && 0 <= last.1 <= usize::MAX);
        lemma_storable_split(entries.drop_last(), seq![last]);
        assert(entries.drop_last() + seq![last] =~= entries);
        lemma_insert_entries_lookup(map, entries.drop_last(), key);
    }
}

/// A lookup in the table that `dump` builds finds, for any two names, the
/// offset of the last field that the walk of the classes recorded under
/// their key, and nothing where the walk recorded no field under it.
pub proof fn lemma_get_finds_last_recorded(
    classes: Seq<ClientClass>,
    table_name: Seq<char>,
    netvar_name: Seq<char>,
)
    requires
        entries_storable(classes_entries(classes)),
        spec_netvar_sum(table_name, netvar_name) <= usize::MAX,
    ensures
        spec_get(insert_entries(Map::empty(), classes_entries(classes)), table_name, netvar_name)
            == match last_offset(
            classes_entries(classes),
            spec_netvar_sum(table_name, netvar_name),
        ) {
            Some(offset) => Some(offset as usize),
            None => None::<usize>,
        },
{
    lemma_weighted_nonneg(table_name);
    lemma_weighted_nonneg(netvar_name);
    lemma_insert_entries_lookup(
        Map::empty(),
        classes_entries(classes),
        spec_netvar_sum(table_name, netvar_name),
    );
}

/// The key of a field does not depend on which of the two names is the
/// table's: a lookup of `(a, b)` is a lookup of `(b, a)`.
pub proof fn lemma_netvar_sum_symmetric(a: Seq<char>, b: Seq<char>)
    ensures
        spec_netvar_sum(a, b) == spec_netvar_sum(b, a),
        forall|netvars: Map<usize, usize>| spec_get(netvars, a, b) == spec_get(netvars, b, a),
{
}

/// Adds the weighted character sum of `s` to `acc`, or `None` where the
/// sum does not fit a `usize`.
fn add_weighted_chars_checked(acc: usize, s: &str) -> (r: Option<usize>)
    ensures
        acc + weighted_char_sum(s@) <= usize::MAX ==> r == Some((acc + weighted_char_sum(s@)) as usize),
        acc + weighted_char_sum(s@) > usize::MAX ==> r is None,
{
    proof {
        lemma_weighted_prefix(s@, 0);
    }
    let len = s.unicode_len();
    let mut sum: usize = acc;
    let mut i: usize = 0;
    for c in it: s.chars()
        invariant
            len == s@.len(),
            i == it.index(),
            it.seq() == s@,
            sum == acc + weighted_char_sum(s@.take(i as int)),
    {
        proof {
            broadcast use vstd::string::axiom_spec_iter;
            assert(c == s@[i as int]);
            lemma_weighted_prefix(s@, i + 1);
            lemma_weighted_prefix(s@.take(i + 1), i as int);
            assert(s@.take(i + 1).take(i as int) =~= s@.take(i as int));
            assert(s@.take(i + 1).drop_last() =~= s@.take(i as int));
        }
        let term = match (c as u32 as usize).checked_mul(i) {
            Some(t) => t,
            None => {
                return None;
            },
        };
        sum = match sum.checked_add(term) {
            Some(t) => t,
            None => {
                return None;
            },
        };
        i += 1;
    }
    proof {
        assert(s@.take(i as int) =~= s@);
    }
    Some(sum)
}

/// The key of the field `netvar_name` of the table `table_name`, or `None`
/// where it does not fit a `usize`.
pub fn netvar_sum_checked(table_name: &str, netvar_name: &str) -> (r: Option<usize>)
    ensures
        spec_netvar_sum(table_name@, netvar_name@) <= usize::MAX ==> r == Some(
            spec_netvar_sum(table_name@, netvar_name@) as usize,
        ),
        spec_netvar_sum(table_name@, netvar_name@) > usize::MAX ==> r is None,
{
    proof {
        lemma_weighted_nonneg(table_name@);
        lemma_weighted_nonneg(netvar_name@);
    }
    match add_weighted_chars_checked(0, table_name) {
        Some(sum) => add_weighted_chars_checked(sum, netvar_name),
        None => None,
    }
}

/// Appending a character to a name adds the character's code times its
/// position, whatever the name's length; an empty name weighs nothing.
pub proof fn lemma_weighted_char_sum_push(s: Seq<char>, c: char)
    ensures
        weighted_char_sum(Seq::<char>::empty()) == 0,
        weighted_char_sum(s.push(c)) == weighted_char_sum(s) + (c as u32 as int) * s.len(),
{
    assert(s.push(c).drop_last() =~= s);
}

/// The key of a field grows, for each character appended to either name, by
/// that character's code times its position in that name.
pub proof fn lemma_netvar_sum_push(table_name: Seq<char>, netvar_name: Seq<char>, c: char)
    ensures
        spec_netvar_sum(table_name.push(c), netvar_name) == spec_netvar_sum(table_name, netvar_name)
            + (c as u32 as int) * table_name.len(),
        spec_netvar_sum(table_name, netvar_name.push(c)) == spec_netvar_sum(table_name, netvar_name)
            + (c as u32 as int) * netvar_name.len(),
{
    lemma_weighted_char_sum_push(table_name, c);
    lemma_weighted_char_sum_push(netvar_name, c);
}

/// The walk of a table records its fields in order, each field followed at
/// once by every field of the table it holds, keyed under the same outer
/// name, for the first field as for any other.
pub proof fn lemma_table_walk_step(table_name: Seq<char>, table: RecvTable, k: int)
    requires
        0 <= k < table.props@.len(),
    ensures
        props_entries(table_name, table, 0) == Seq::<(int, int)>::empty(),
        props_entries(table_name, table, table.props@.len() as int) == table_entries(table_name, table),
        props_entries(table_name, table, k + 1) == props_entries(table_name, table, k) + seq![
            (spec_netvar_sum(table_name, table.props@[k].var_name@), table.props@[k].offset as int),
        ] + match table.props@[k].data_table {
            Some(nested) => table_entries(table_name, *nested),
            None => Seq::<(int, int)>::empty(),
        },
{
    let prop = table.props@[k];
    let head = seq![(spec_netvar_sum(table_name, prop.var_name@), prop.offset as int)];
    let nested = nested_table_entries(table_name, prop);
    let done = props_entries(table_name, table, k);
    assert(prop_entries(table_name, prop) == head + nested);
    assert(props_entries(table_name, table, k + 1) == done + prop_entries(table_name, prop));
    assert(done + (head + nested) =~= done + head + nested);
}

/// The walk of the classes records, for a list followed by one more class,
/// the list's entries, then the new class's table keyed under that class's
/// own table name.
pub proof fn lemma_classes_walk_step(classes: Seq<ClientClass>, class: ClientClass)
    ensures
        classes_entries(Seq::<ClientClass>::empty()) == Seq::<(int, int)>::empty(),
        classes_entries(classes.push(class)) == classes_entries(classes) + table_entries(
            class.recv_table.net_table_name@,
            class.recv_table,
        ),
{
    assert(classes.push(class).drop_last() =~= classes);
}

} // verus!
