use vstd::prelude::*;
use vstd::set_lib::{lemma_int_range, lemma_subset_equality, set_int_range};

verus! {

/// The header line of a commit message: `type(scope): description`, with the
/// scope segment left out when the scope is absent or empty.
pub open spec fn header_text(kind: Seq<char>, scope: Option<Seq<char>>, description: Seq<char>) -> Seq<char> {
    let scope_part = match scope {
        Some(s) => if s.len() == 0 {
            Seq::empty()
        } else {
            seq!['('] + s + seq![')']
        },
        None => Seq::empty(),
    };
    kind + scope_part + seq![':', ' '] + description
}

/// The view of an optional string slice.
pub open spec fn opt_view(o: Option<&str>) -> Option<Seq<char>> {
    match o {
        Some(s) => Some(s@),
        None => None,
    }
}

/// The marker that opens each line of the TODO footer.
pub open spec fn todo_marker() -> Seq<char> {
    seq!['-', ' ', '[', ' ', ']', ' ']
}

/// The heading that opens a non-empty TODO footer, blank line included.
pub open spec fn todo_heading() -> Seq<char> {
    seq!['\n', '\n', 'T', 'O', 'D', 'O', ':', '\n']
}

/// The positions among the first `n` items that `checked` does not name, in
/// increasing order.
pub open spec fn unconfirmed_positions(n: int, checked: Seq<usize>) -> Seq<int>
    decreases n,
{
    if n <= 0 {
        Seq::empty()
    } else {
        let earlier = unconfirmed_positions(n - 1, checked);
        if checked.contains((n - 1) as usize) {
            earlier
        } else {
            earlier.push(n - 1)
        }
    }
}

/// One `- [ ] item` line for each unconfirmed item, in checklist order.
pub open spec fn todo_lines(items: Seq<Seq<char>>, checked: Seq<usize>) -> Seq<Seq<char>> {
    unconfirmed_positions(items.len() as int, checked).map_values(|i: int| todo_marker() + items[i])
}

/// The parts with `sep` between each two neighbours.
pub open spec fn joined(parts: Seq<Seq<char>>, sep: Seq<char>) -> Seq<char>
    decreases parts.len(),
{
    if parts.len() == 0 {
        Seq::empty()
    } else if parts.len() == 1 {
        parts[0]
    } else {
        joined(parts.drop_last(), sep) + sep + parts.last()
    }
}

/// The lines joined by single newlines.
pub open spec fn joined_lines(lines: Seq<Seq<char>>) -> Seq<char> {
    joined(lines, seq!['\n'])
}

/// The TODO footer: empty when every item is confirmed, else the heading
/// followed by one line per unconfirmed item.
pub open spec fn todo_footer_text(items: Seq<Seq<char>>, checked: Seq<usize>) -> Seq<char> {
    let lines = todo_lines(items, checked);
    if lines.len() == 0 {
        Seq::empty()
    } else {
        todo_heading() + joined_lines(lines)
    }
}

/// The issue trailer: a blank line and `Refs: issue` when an issue is given.
pub open spec fn issue_trailer_text(issue: Option<Seq<char>>) -> Seq<char> {
    match issue {
        Some(i) => seq!['\n', '\n', 'R', 'e', 'f', 's', ':', ' '] + i,
        None => Seq::empty(),
    }
}

/// Builds the header line of a commit message.
pub fn build_header(kind: &str, scope: Option<&str>, description: &str) -> (r: String)
    ensures
        r@ == header_text(kind@, opt_view(scope), description@),
{
    proof {
        reveal_strlit("(");
        reveal_strlit(")");
        reveal_strlit(": ");
    }
    let mut r = kind.to_owned();
    match scope {
        Some(s) => {
            if !s.is_empty() {
                r.append("(");
                r.append(s);
                r.append(")");
            }
        },
        None => {},
    }
    r.append(": ");
    r.append(description);
    assert(r@ =~= header_text(kind@, opt_view(scope), description@));
    r
}

/// Whether `v` holds `x`.
pub fn holds_index(v: &Vec<usize>, x: usize) -> (r: bool)
    ensures
        r == v@.contains(x),
{
    let mut i: usize = 0;
    while i < v.len()
        invariant
            i <= v.len(),
            forall|k: int| 0 <= k < i ==> v@[k] != x,
        decreases v.len() - i,
    {
        if v[i] == x {
            return true;
        }
        i = i + 1;
    }
    false
}

/// Builds the TODO footer listing, in order, the checklist items whose index
/// is not among `checked`.
pub fn build_todo_footer(checklist: &Vec<String>, checked: &Vec<usize>) -> (r: String)
    ensures
        r@ == todo_footer_text(checklist.deep_view(), checked@),
{
    proof {
        reveal_strlit("\n\nTODO:\n");
    }
    let ghost items = checklist.deep_view();
    let mut body = String::new();
    let mut count: usize = 0;
    let mut i: usize = 0;
    while i < checklist.len()
        invariant
            i <= checklist.len(),
            items == checklist.deep_view(),
            count == todo_lines(items.subrange(0, i as int), checked@).len(),
            count <= i,
            body@ == joined_lines(todo_lines(items.subrange(0, i as int), checked@)),
        decreases checklist.len() - i,
    {
        let ghost before = todo_lines(items.subrange(0, i as int), checked@);
        let ghost prefix = items.subrange(0, i as int + 1);
        assert(unconfirmed_positions(i as int + 1, checked@).len() == todo_lines(prefix, checked@).len());
        assert forall|k: int| 0 <= k < unconfirmed_positions(i as int, checked@).len() implies
            prefix[unconfirmed_positions(i as int, checked@)[k]] == items.subrange(0, i as int)[unconfirmed_positions(i as int, checked@)[k]] by {
            lemma_positions_exact(i as int, checked@);
        }
        if !holds_index(checked, i) {
            proof {
                reveal_strlit("- [ ] ");
                reveal_strlit("\n");
            }
            let mut line = "- [ ] ".to_owned();
            line.append(checklist[i].as_str());
            assert(items[i as int] == checklist@[i as int]@);
            assert(line@ =~= todo_marker() + items[i as int]);
            if count > 0 {
                body.append("\n");
            }
            body.append(line.as_str());
            count = count + 1;
            proof {
                let after = todo_lines(prefix, checked@);
                assert(after =~= before.push(todo_marker() + items[i as int]));
                assert(after.drop_last() =~= before);
                assert(body@ =~= joined_lines(after));
            }
        } else {
            proof {
                assert(todo_lines(prefix, checked@) =~= before);
            }
        }
        i = i + 1;
    }
    assert(items.subrange(0, checklist.len() as int) =~= items);
    if count == 0 {
        String::new()
    } else {
        let mut r = "\n\nTODO:\n".to_owned();
        r.append(body.as_str());
        r
    }
}

/// Builds the issue trailer: `\n\nRefs: issue`, or nothing without an issue.
pub fn build_issue_trailer(issue: Option<&str>) -> (r: String)
    ensures
        r@ == issue_trailer_text(opt_view(issue)),
{
    proof {
        reveal_strlit("\n\nRefs: ");
    }
    match issue {
        Some(i) => {
            let mut r = "\n\nRefs: ".to_owned();
            r.append(i);
            r
        },
        None => String::new(),
    }
}

/// The unconfirmed positions are exactly the indices below `n` that `checked`
/// does not name, each once and in increasing order.
pub proof fn lemma_positions_exact(n: int, checked: Seq<usize>)
    requires
        n <= usize::MAX + 1,
    ensures
        forall|j: int, k: int| 0 <= j < k < unconfirmed_positions(n, checked).len() ==>
            unconfirmed_positions(n, checked)[j] < unconfirmed_positions(n, checked)[k],
        forall|k: int| 0 <= k < unconfirmed_positions(n, checked).len() ==>
            0 <= #[trigger] unconfirmed_positions(n, checked)[k] < n
            && !checked.contains(unconfirmed_positions(n, checked)[k] as usize),
        forall|i: int| 0 <= i < n && !checked.contains(i as usize) ==>
            #[trigger] unconfirmed_positions(n, checked).contains(i),
    decreases n,
{
    if n > 0 {
        lemma_positions_exact(n - 1, checked);
        let earlier = unconfirmed_positions(n - 1, checked);
        let now = unconfirmed_positions(n, checked);
        assert forall|i: int| 0 <= i < n && !checked.contains(i as usize) implies #[trigger] now.contains(i) by {
            if i < n - 1 {
                assert(earlier.contains(i));
                let k = choose|k: int| 0 <= k < earlier.len() && earlier[k] == i;
                assert(now[k] == i);
            } else {
                assert(now[earlier.len() as int] == i);
            }
        }
    }
}

/// When every item is confirmed, by a list of distinct indices into the
/// checklist as long as the checklist itself, the TODO footer is empty.
pub proof fn lemma_full_confirmation_no_footer(items: Seq<Seq<char>>, checked: Seq<usize>)
    requires
        checked.no_duplicates(),
        forall|k: int| 0 <= k < checked.len() ==> (#[trigger] checked[k] as int) < items.len(),
        checked.len() == items.len(),
    ensures
        todo_footer_text(items, checked) == Seq::<char>::empty(),
{
    let n = items.len() as int;
    let ints = checked.map_values(|x: usize| x as int);
    assert(ints.no_duplicates()) by {
        assert forall|j: int, k: int| 0 <= j < ints.len() && 0 <= k < ints.len() && j != k implies
            ints[j] != ints[k] by {
            assert(checked[j] != checked[k]);
        }
    }
    ints.unique_seq_to_set();
    lemma_int_range(0, n);
    assert(ints.to_set().subset_of(set_int_range(0, n))) by {
        assert forall|x: int| ints.to_set().contains(x) implies set_int_range(0, n).contains(x) by {
            let k = choose|k: int| 0 <= k < ints.len() && ints[k] == x;
            assert(checked[k] as int == x);
        }
    }
    lemma_subset_equality(ints.to_set(), set_int_range(0, n));
    assert forall|i: int| 0 <= i < n implies #[trigger] checked.contains(i as usize) by {
        assert(set_int_range(0, n).contains(i));
        assert(ints.to_set().contains(i));
        let k = choose|k: int| 0 <= k < ints.len() && ints[k] == i;
        assert(checked[k] == i as usize);
    }
    lemma_all_confirmed_no_positions(n, checked);
}

proof fn lemma_all_confirmed_no_positions(n: int, checked: Seq<usize>)
    requires
        forall|i: int| 0 <= i < n ==> #[trigger] checked.contains(i as usize),
    ensures
        unconfirmed_positions(n, checked).len() == 0,
    decreases n,
{
    if n > 0 {
        assert(checked.contains((n - 1) as usize));
        lemma_all_confirmed_no_positions(n - 1, checked);
    }
}

/// When some item is unconfirmed, the TODO footer is the heading followed by
/// `- [ ] item` lines: one for each unconfirmed item, none for a confirmed
/// one, in checklist order.
pub proof fn lemma_footer_lists_unconfirmed(items: Seq<Seq<char>>, checked: Seq<usize>)
    requires
        items.len() <= usize::MAX,
        exists|i: int| 0 <= i < items.len() && !#[trigger] checked.contains(i as usize),
    ensures
        ({
            let pos = unconfirmed_positions(items.len() as int, checked);
            &&& todo_footer_text(items, checked) == todo_heading() + joined_lines(todo_lines(items, checked))
            &&& todo_lines(items, checked).len() == pos.len()
            &&& forall|k: int| 0 <= k < pos.len() ==>
                #[trigger] todo_lines(items, checked)[k] == todo_marker() + items[pos[k]]
            &&& forall|j: int, k: int| 0 <= j < k < pos.len() ==> pos[j] < pos[k]
            &&& forall|k: int| 0 <= k < pos.len() ==>
                0 <= #[trigger] pos[k] < items.len() && !checked.contains(pos[k] as usize)
            &&& forall|i: int| 0 <= i < items.len() && !checked.contains(i as usize) ==>
                #[trigger] pos.contains(i)
        }),
{
    let n = items.len() as int;
    lemma_positions_exact(n, checked);
    let i = choose|i: int| 0 <= i < n && !#[trigger] checked.contains(i as usize);
    assert(unconfirmed_positions(n, checked).contains(i));
}

} // verus!
