//! The layout of a document: pages, their columns, and the names of the
//! sections in each column; finding, removing and moving a name.

use vstd::prelude::*;
use crate::schema::metadata::{copy_layout, layout_names};
use crate::text::{same_text, texts};

verus! {

/// A layout as names: for each page, for each column, the names in order.
pub type Names = Seq<Seq<Seq<Seq<char>>>>;

/// A place in a layout.
#[derive(Debug, Clone, Copy, PartialEq, Eq, Structural)]
pub struct LayoutLocator {
    pub page: usize,
    pub column: usize,
    pub section: usize,
}

/// Whether the place is one of the layout's.
pub open spec fn in_layout(l: Names, loc: LayoutLocator) -> bool {
    &&& loc.page < l.len()
    &&& loc.column < l[loc.page as int].len()
    &&& loc.section < l[loc.page as int][loc.column as int].len()
}

/// Whether the name is none of the first `n` of a column.
pub open spec fn not_in_column(column: Seq<Seq<char>>, item: Seq<char>, n: int) -> bool {
    forall|s: int| 0 <= s < n ==> #[trigger] column[s] != item
}

/// Whether the name is in none of the first `n` columns of a page.
pub open spec fn not_in_page(page: Seq<Seq<Seq<char>>>, item: Seq<char>, n: int) -> bool {
    forall|c: int| 0 <= c < n ==> not_in_column(#[trigger] page[c], item, page[c].len() as int)
}

/// Whether the name is on none of the first `n` pages of a layout.
pub open spec fn not_in_layout(l: Names, item: Seq<char>, n: int) -> bool {
    forall|p: int| 0 <= p < n ==> not_in_page(#[trigger] l[p], item, l[p].len() as int)
}

/// Whether `r` is the first place of the name in the layout, going by
/// page, then by column, then down the column; or nothing, the layout not
/// holding the name.
pub open spec fn is_first_place(l: Names, item: Seq<char>, r: Option<LayoutLocator>) -> bool {
    match r {
        Some(loc) => {
            &&& in_layout(l, loc)
            &&& l[loc.page as int][loc.column as int][loc.section as int] == item
            &&& not_in_layout(l, item, loc.page as int)
            &&& not_in_page(l[loc.page as int], item, loc.column as int)
            &&& not_in_column(l[loc.page as int][loc.column as int], item, loc.section as int)
        },
        None => not_in_layout(l, item, l.len() as int),
    }
}

/// The first place of a name in a layout.
pub fn find_item_in_layout(item: &str, layout: &Vec<Vec<Vec<String>>>) -> (r: Option<LayoutLocator>)
    ensures
        is_first_place(layout_names(layout@), item@, r),
{
    let ghost l = layout_names(layout@);
    let mut p: usize = 0;
    while p < layout.len()
        invariant
            p <= layout@.len(),
            l == layout_names(layout@),
            not_in_layout(l, item@, p as int),
        decreases layout@.len() - p,
    {
        let page = &layout[p];
        let mut c: usize = 0;
        while c < page.len()
            invariant
                p < layout@.len(),
                *page == layout@[p as int],
                l == layout_names(layout@),
                c <= page@.len(),
                not_in_layout(l, item@, p as int),
                not_in_page(l[p as int], item@, c as int),
            decreases page@.len() - c,
        {
            let column = &page[c];
            let mut s: usize = 0;
            while s < column.len()
                invariant
                    p < layout@.len(),
                    *page == layout@[p as int],
                    c < page@.len(),
                    *column == page@[c as int],
                    l == layout_names(layout@),
                    s <= column@.len(),
                    not_in_layout(l, item@, p as int),
                    not_in_page(l[p as int], item@, c as int),
                    not_in_column(l[p as int][c as int], item@, s as int),
                decreases column@.len() - s,
            {
                if same_text(column[s].as_str(), item) {
                    return Some(LayoutLocator { page: p, column: c, section: s });
                }
                s += 1;
            }
            c += 1;
        }
        p += 1;
    }
    None
}

/// A layout without the name at a place.
pub open spec fn without(l: Names, loc: LayoutLocator) -> Names {
    l.update(
        loc.page as int,
        l[loc.page as int].update(
            loc.column as int,
            l[loc.page as int][loc.column as int].remove(loc.section as int),
        ),
    )
}

/// Takes the name at a place out of the layout and hands it back.
fn take_item(layout: &mut Vec<Vec<Vec<String>>>, loc: LayoutLocator) -> (item: String)
    requires
        in_layout(layout_names(old(layout)@), loc),
    ensures
        item@ == layout_names(old(layout)@)[loc.page as int][loc.column as int][loc.section as int],
        layout_names(final(layout)@) == without(layout_names(old(layout)@), loc),
{
    let ghost before = layout_names(layout@);
    let mut page = layout.remove(loc.page);
    let mut column = page.remove(loc.column);
    let item = column.remove(loc.section);
    page.insert(loc.column, column);
    layout.insert(loc.page, page);
    proof {
        let after = layout_names(layout@);
        let want = without(before, loc);
        assert(after.len() == want.len());
        assert forall|p: int| 0 <= p < after.len() implies after[p] == want[p] by {
            if p == loc.page {
                assert(after[p].len() == want[p].len());
                assert forall|c: int| 0 <= c < after[p].len() implies after[p][c] == want[p][c] by {
                    if c == loc.column {
                        assert(after[p][c] =~= want[p][c]);
                    } else {
                        assert(after[p][c] =~= want[p][c]);
                    }
                }
                assert(after[p] =~= want[p]);
            } else {
                assert(after[p] =~= want[p]);
            }
        }
        assert(after =~= want);
    }
    item
}

/// Takes the first occurrence of a name out of the layout and says where
/// it stood. A layout that does not hold the name stays as it is.
pub fn remove_item_in_layout(item: &str, layout: &mut Vec<Vec<Vec<String>>>) -> (r: Option<
    LayoutLocator,
>)
    ensures
        is_first_place(layout_names(old(layout)@), item@, r),
        match r {
            Some(loc) => layout_names(final(layout)@) == without(layout_names(old(layout)@), loc),
            None => *final(layout) == *old(layout),
        },
{
    match find_item_in_layout(item, layout) {
        Some(loc) => {
            let _ = take_item(layout, loc);
            Some(loc)
        },
        None => None,
    }
}

/// A layout with empty pages after its own, so that it has `n` at least.
pub open spec fn with_pages(l: Names, n: int) -> Names {
    if l.len() >= n {
        l
    } else {
        l + Seq::new((n - l.len()) as nat, |i: int| Seq::<Seq<Seq<char>>>::empty())
    }
}

/// A page with empty columns after its own, so that it has `n` at least.
pub open spec fn with_columns(page: Seq<Seq<Seq<char>>>, n: int) -> Seq<Seq<Seq<char>>> {
    if page.len() >= n {
        page
    } else {
        page + Seq::new((n - page.len()) as nat, |i: int| Seq::<Seq<char>>::empty())
    }
}

/// Where in the target column a name goes that is moved to `target`: one
/// place earlier where it comes from higher up the same column, and never
/// past the end of the column, which has `len` names.
pub open spec fn landing(current: LayoutLocator, target: LayoutLocator, len: int) -> int {
    let wanted: int = if current.page == target.page && current.column == target.column
        && current.section < target.section {
        target.section - 1
    } else {
        target.section as int
    };
    if wanted <= len {
        wanted
    } else {
        len
    }
}

/// A layout with the name at `current` moved to `target`. Pages and
/// columns that the target needs and the layout lacks are added, empty. A
/// layout that has no name at `current` stays as it is.
pub open spec fn moved(l: Names, current: LayoutLocator, target: LayoutLocator) -> Names {
    if !in_layout(l, current) {
        l
    } else {
        let item = l[current.page as int][current.column as int][current.section as int];
        let taken = without(l, current);
        let paged = with_pages(taken, target.page + 1);
        let page = with_columns(paged[target.page as int], target.column + 1);
        let column = page[target.column as int];
        paged.update(
            target.page as int,
            page.update(
                target.column as int,
                column.insert(landing(current, target, column.len() as int), item),
            ),
        )
    }
}

/// Moves the name at one place to another.
pub fn move_item_in_layout(
    current: LayoutLocator,
    target: LayoutLocator,
    layout: &Vec<Vec<Vec<String>>>,
) -> (r: Vec<Vec<Vec<String>>>)
    requires
        target.page < usize::MAX,
        target.column < usize::MAX,
    ensures
        layout_names(r@) == moved(layout_names(layout@), current, target),
{
    let mut out = copy_layout(layout);
    let ghost l = layout_names(layout@);
    if !(current.page < out.len() && current.column < out[current.page].len() && current.section
        < out[current.page][current.column].len()) {
        assert(!in_layout(l, current)) by {
            if current.page < l.len() {
                assert(l[current.page as int].len() == out@[current.page as int]@.len());
                if current.column < l[current.page as int].len() {
                    assert(l[current.page as int][current.column as int].len()
                        == out@[current.page as int]@[current.column as int]@.len());
                }
            }
        }
        return out;
    }
    assert(in_layout(l, current)) by {
        assert(l[current.page as int].len() == out@[current.page as int]@.len());
        assert(l[current.page as int][current.column as int].len()
            == out@[current.page as int]@[current.column as int]@.len());
    }
    let item = take_item(&mut out, current);
    let ghost taken = layout_names(out@);
    while out.len() <= target.page
        invariant
            target.page < usize::MAX,
            out@.len() <= target.page + 1 || out@.len() == taken.len(),
            out@.len() >= taken.len(),
            layout_names(out@) == taken + Seq::new(
                (out@.len() - taken.len()) as nat,
                |i: int| Seq::<Seq<Seq<char>>>::empty(),
            ),
        decreases target.page + 1 - out@.len(),
    {
        let ghost before = layout_names(out@);
        let ghost old_pages = out@;
        out.push(Vec::new());
        proof {
            let after = layout_names(out@);
            assert(after.len() == before.len() + 1);
            assert(after[before.len() as int] =~= Seq::<Seq<Seq<char>>>::empty());
            assert forall|i: int| 0 <= i < before.len() implies after[i] == before[i] by {
                assert(out@[i] == old_pages[i]);
                assert(after[i] =~= before[i]);
            }
        }
        assert(layout_names(out@) =~= before.push(Seq::<Seq<Seq<char>>>::empty()));
        assert(layout_names(out@) =~= taken + Seq::new(
            (out@.len() - taken.len()) as nat,
            |i: int| Seq::<Seq<Seq<char>>>::empty(),
        ));
    }
    let ghost paged = layout_names(out@);
    assert(paged =~= with_pages(taken, target.page + 1)) by {
        if taken.len() >= target.page + 1 {
            assert(out@.len() == taken.len());
        }
    }
    let mut page = out.remove(target.page);
    let ghost page0 = page_names(page@);
    assert(page0 =~= paged[target.page as int]);
    while page.len() <= target.column
        invariant
            target.column < usize::MAX,
            page@.len() <= target.column + 1 || page@.len() == page0.len(),
            page@.len() >= page0.len(),
            page_names(page@) == page0 + Seq::new(
                (page@.len() - page0.len()) as nat,
                |i: int| Seq::<Seq<char>>::empty(),
            ),
        decreases target.column + 1 - page@.len(),
    {
        let ghost before = page_names(page@);
        let ghost old_columns = page@;
        page.push(Vec::new());
        proof {
            let after = page_names(page@);
            assert(after.len() == before.len() + 1);
            assert(after[before.len() as int] =~= Seq::<Seq<char>>::empty());
            assert forall|i: int| 0 <= i < before.len() implies after[i] == before[i] by {
                assert(page@[i] == old_columns[i]);
            }
        }
        assert(page_names(page@) =~= before.push(Seq::<Seq<char>>::empty()));
        assert(page_names(page@) =~= page0 + Seq::new(
            (page@.len() - page0.len()) as nat,
            |i: int| Seq::<Seq<char>>::empty(),
        ));
    }
    let ghost columned = page_names(page@);
    assert(columned =~= with_columns(page0, target.column + 1));
    let mut column = page.remove(target.column);
    let ghost names = texts(column@);
    assert(names == columned[target.column as int]);
    let wanted: usize = if current.page == target.page && current.column == target.column
        && current.section < target.section {
        target.section - 1
    } else {
        target.section
    };
    let at: usize = if wanted <= column.len() {
        wanted
    } else {
        column.len()
    };
    column.insert(at, item);
    assert(texts(column@) =~= names.insert(at as int, item@));
    page.insert(target.column, column);
    assert(page_names(page@) =~= columned.update(
        target.column as int,
        names.insert(at as int, item@),
    ));
    out.insert(target.page, page);
    proof {
        let after = layout_names(out@);
        let want = paged.update(
            target.page as int,
            columned.update(target.column as int, names.insert(at as int, item@)),
        );
        assert(after.len() == want.len());
        assert forall|p: int| 0 <= p < after.len() implies after[p] == want[p] by {
            if p == target.page {
                assert(after[p] =~= page_names(page@));
            } else {
                assert(after[p] =~= want[p]);
            }
        }
        assert(after =~= want);
    }
    out
}

/// The names of each column of a page.
pub open spec fn page_names(page: Seq<Vec<String>>) -> Seq<Seq<Seq<char>>> {
    Seq::new(page.len(), |c: int| texts(page[c]@))
}

} // verus!
