use vstd::prelude::*;
use crate::descriptor::strings_view;

verus! {

/// The pages one after another, a line feed between two neighbours.
pub open spec fn joined(pages: Seq<Seq<char>>) -> Seq<char>
    decreases pages.len(),
{
    if pages.len() <= 1 {
        if pages.len() == 0 {
            Seq::empty()
        } else {
            pages[0]
        }
    } else {
        joined(pages.drop_last()) + seq!['\n'] + pages.last()
    }
}

/// What is shown for a page name, given the contents of the pages of that
/// name in lookup order: a notice when there is none, else all of them
/// joined when combining, else the first.
pub open spec fn page_text(name: Seq<char>, pages: Seq<Seq<char>>, combine: bool) -> Seq<char> {
    if pages.len() == 0 {
        "No result found for: "@ + name
    } else if combine {
        joined(pages)
    } else {
        pages[0]
    }
}

/// The text to show for `page_name`, from the contents of the pages found
/// under that name, in lookup order.
pub fn select_page(page_name: &str, pages: &Vec<String>, combine: bool) -> (r: String)
    ensures
        r@ == page_text(page_name@, strings_view(pages@), combine),
{
    let ghost pv = strings_view(pages@);
    if pages.len() == 0 {
        return String::from_str("No result found for: ").concat(page_name);
    }
    let mut r = pages[0].clone();
    if !combine {
        return r;
    }
    let mut k: usize = 1;
    assert(pv.take(1).len() == 1);
    while k < pages.len()
        invariant
            pv == strings_view(pages@),
            1 <= k <= pages.len(),
            r@ == joined(pv.take(k as int)),
        decreases pages.len() - k,
    {
        proof {
            assert(pv.take(k + 1).drop_last() == pv.take(k as int));
            assert(pv.take(k + 1).last() == pages@[k as int]@);
            reveal_strlit("\n");
        }
        r = r.concat("\n").concat(pages[k].as_str());
        k = k + 1;
    }
    assert(pv.take(pages.len() as int) == pv);
    r
}

} // verus!
