//! The in-memory item store: rows keyed by identifier, modelled as a map
//! from identifier to name. Creating under an existing identifier replaces
//! that row; identifiers stay unique.

use vstd::prelude::*;

use crate::item::Item;
use crate::repository::{ItemRepository, RepositoryError};

verus! {

/// An item as the store keeps it.
#[derive(Debug, Clone, PartialEq, Eq)]
pub struct ItemRow {
    pub id: String,
    pub name: String,
}

impl ItemRow {
    pub fn new(id: String, name: String) -> (row: ItemRow)
        ensures
            row.id == id,
            row.name == name,
    {
        ItemRow { id, name }
    }
}

/// Domain entity to stored row.
pub fn domain_to_row(item: &Item) -> (row: ItemRow)
    ensures
        row.id@ == item.id@,
        row.name@ == item.name@,
{
    ItemRow::new(item.id.clone(), item.name.clone())
}

/// Stored row to domain entity.
pub fn row_to_domain(row: &ItemRow) -> (item: Item)
    ensures
        item.id@ == row.id@,
        item.name@ == row.name@,
{
    Item::new(row.id.clone(), row.name.clone())
}

/// The rows as a map from identifier to name.
pub open spec fn rows_map(rows: Seq<ItemRow>) -> Map<Seq<char>, Seq<char>>
    decreases rows.len(),
{
    if rows.len() == 0 {
        Map::empty()
    } else {
        rows_map(rows.drop_last()).insert(rows.last().id@, rows.last().name@)
    }
}

/// No two rows share an identifier.
pub open spec fn rows_unique(rows: Seq<ItemRow>) -> bool {
    forall|i: int, j: int| 0 <= i < j < rows.len() ==> rows[i].id@ != rows[j].id@
}

/// The map holds exactly the rows' identifiers, each at its row's name.
proof fn lemma_rows_map(rows: Seq<ItemRow>)
    requires
        rows_unique(rows),
    ensures
        forall|k: Seq<char>| #[trigger]
            rows_map(rows).contains_key(k) <==> exists|i: int|
                0 <= i < rows.len() && (#[trigger] rows[i]).id@ == k,
        forall|i: int|
            0 <= i < rows.len() ==> rows_map(rows).contains_key((#[trigger] rows[i]).id@)
                && rows_map(rows)[rows[i].id@] == rows[i].name@,
    decreases rows.len(),
{
    if rows.len() > 0 {
        let head = rows.drop_last();
        assert(rows_unique(head)) by {
            assert(forall|i: int| 0 <= i < head.len() ==> head[i] == rows[i]);
        }
        lemma_rows_map(head);
        assert(forall|i: int| 0 <= i < head.len() ==> head[i] == rows[i]);
        assert(rows[rows.len() - 1] == rows.last());
        assert forall|i: int| 0 <= i < rows.len() implies rows_map(rows).contains_key(
            (#[trigger] rows[i]).id@,
        ) && rows_map(rows)[rows[i].id@] == rows[i].name@ by {
            if i < rows.len() - 1 {
                assert(rows[i].id@ != rows.last().id@);
            }
        }
        assert forall|k: Seq<char>| #[trigger]
            rows_map(rows).contains_key(k) <==> exists|i: int|
                0 <= i < rows.len() && (#[trigger] rows[i]).id@ == k by {
            if rows_map(rows).contains_key(k) {
                if k == rows.last().id@ {
                    assert(rows[rows.len() - 1].id@ == k);
                } else {
                    assert(rows_map(head).contains_key(k));
                    let i = choose|i: int| 0 <= i < head.len() && (#[trigger] head[i]).id@ == k;
                    assert(rows[i].id@ == k);
                }
            }
            if exists|i: int| 0 <= i < rows.len() && (#[trigger] rows[i]).id@ == k {
                let i = choose|i: int| 0 <= i < rows.len() && (#[trigger] rows[i]).id@ == k;
                if i < rows.len() - 1 {
                    assert(head[i].id@ == k);
                    assert(rows_map(head).contains_key(k));
                } else {
                    assert(k == rows.last().id@);
                }
            }
        }
    }
}

/// Replacing the row of an identifier is, on the map, one insert.
proof fn lemma_rows_map_update(rows: Seq<ItemRow>, i: int, row: ItemRow)
    requires
        rows_unique(rows),
        0 <= i < rows.len(),
        rows[i].id@ == row.id@,
    ensures
        rows_map(rows.update(i, row)) == rows_map(rows).insert(row.id@, row.name@),
        rows_unique(rows.update(i, row)),
    decreases rows.len(),
{
    let updated = rows.update(i, row);
    assert(rows_unique(updated)) by {
        assert(forall|p: int| 0 <= p < rows.len() ==> updated[p].id@ == rows[p].id@);
    }
    if i == rows.len() - 1 {
        assert(updated.drop_last() =~= rows.drop_last());
        assert(updated.last() == row);
        assert(rows_map(updated) == rows_map(rows.drop_last()).insert(row.id@, row.name@));
        assert(rows_map(rows.drop_last()).insert(row.id@, row.name@) =~= rows_map(
            rows.drop_last(),
        ).insert(rows.last().id@, rows.last().name@).insert(row.id@, row.name@));
    } else {
        let head = rows.drop_last();
        assert(rows_unique(head)) by {
            assert(forall|p: int| 0 <= p < head.len() ==> head[p] == rows[p]);
        }
        lemma_rows_map_update(head, i, row);
        assert(updated.drop_last() =~= head.update(i, row));
        assert(updated.last() == rows.last());
        assert(rows[i].id@ != rows.last().id@);
        assert(rows_map(updated) == rows_map(head).insert(row.id@, row.name@).insert(
            rows.last().id@,
            rows.last().name@,
        ));
        assert(rows_map(head).insert(row.id@, row.name@).insert(rows.last().id@, rows.last().name@)
            =~= rows_map(head).insert(rows.last().id@, rows.last().name@).insert(
            row.id@,
            row.name@,
        ));
    }
}

/// The in-memory item store.
pub struct MemoryItemStore {
    rows: Vec<ItemRow>,
}

impl MemoryItemStore {
    /// The stored items, as identifier-to-name.
    pub closed spec fn contents(&self) -> Map<Seq<char>, Seq<char>> {
        rows_map(self.rows@)
    }

    /// Identifiers are unique in the underlying rows.
    pub closed spec fn wf(&self) -> bool {
        rows_unique(self.rows@)
    }

    /// Stores an item, replacing any item of the same identifier, and
    /// returns what was stored.
    pub fn create(&mut self, item: Item) -> (r: Result<Item, RepositoryError>)
        requires
            old(self).wf(),
        ensures
            final(self).wf(),
            final(self).contents() == old(self).contents().insert(item.id@, item.name@),
            match r {
                Ok(stored) => stored.id@ == item.id@ && stored.name@ == item.name@,
                Err(_) => false,
            },
    {
        let row = domain_to_row(&item);
        let out = row_to_domain(&row);
        let n = self.rows.len();
        let mut i: usize = 0;
        while i < n
            invariant
                i <= n,
                self.rows@ == old(self).rows@,
                n == self.rows@.len(),
                rows_unique(self.rows@),
                row.id@ == item.id@,
                row.name@ == item.name@,
                out.id@ == item.id@,
                out.name@ == item.name@,
                forall|j: int| 0 <= j < i ==> (#[trigger] self.rows@[j]).id@ != item.id@,
            decreases n - i,
        {
            if self.rows[i].id == item.id {
                proof {
                    lemma_rows_map_update(self.rows@, i as int, row);
                }
                self.rows[i] = row;
                return Ok(out);
            }
            i = i + 1;
        }
        proof {
            let rows0 = self.rows@;
            let pushed = rows0.push(row);
            assert(pushed.drop_last() =~= rows0);
            assert(pushed.last() == row);
            assert(rows_map(pushed) == rows_map(rows0).insert(row.id@, row.name@));
            assert(rows_unique(pushed)) by {
                assert(forall|j: int| 0 <= j < rows0.len() ==> pushed[j] == rows0[j]);
            }
        }
        self.rows.push(row);
        Ok(out)
    }

    /// Looks an item up by identifier: the stored item, or nothing when
    /// the identifier is absent. Never fails.
    pub fn get_by_id(&self, id: &str) -> (r: Result<Option<Item>, RepositoryError>)
        requires
            self.wf(),
        ensures
            match r {
                Ok(found) => match found {
                    Some(item) => self.contents().contains_key(id@) && item.id@ == id@
                        && item.name@ == self.contents()[id@],
                    None => !self.contents().contains_key(id@),
                },
                Err(_) => false,
            },
    {
        let n = self.rows.len();
        let mut i: usize = 0;
        while i < n
            invariant
                i <= n,
                n == self.rows@.len(),
                self.wf(),
                forall|j: int| 0 <= j < i ==> (#[trigger] self.rows@[j]).id@ != id@,
            decreases n - i,
        {
            if crate::subject::str_equal(self.rows[i].id.as_str(), id) {
                proof {
                    lemma_rows_map(self.rows@);
                }
                return Ok(Some(row_to_domain(&self.rows[i])));
            }
            i = i + 1;
        }
        proof {
            lemma_rows_map(self.rows@);
        }
        Ok(None)
    }
}

impl Default for MemoryItemStore {
    /// An empty store.
    fn default() -> (r: MemoryItemStore)
        ensures
            r.wf(),
            r.contents() == Map::<Seq<char>, Seq<char>>::empty(),
    {
        MemoryItemStore { rows: Vec::new() }
    }
}

impl ItemRepository for MemoryItemStore {
    open spec fn inv(&self) -> bool {
        self.wf()
    }

    fn create(&mut self, item: Item) -> Result<Item, RepositoryError> {
        MemoryItemStore::create(self, item)
    }

    fn get_by_id(&self, id: &str) -> Result<Option<Item>, RepositoryError> {
        MemoryItemStore::get_by_id(self, id)
    }
}

} // verus!
