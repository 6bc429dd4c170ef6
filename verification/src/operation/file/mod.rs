//! The file service: what is asked of it, and how.

pub mod output;
pub mod param;

use vstd::prelude::*;
use vstd::string::*;

verus! {

/// The path of the file service.
pub const FILE_PATH: &'static str = "files";

/// The page that is asked for where the caller names none, and the least.
pub const FIRST_PAGE: u64 = 1;

/// The size of a page where the caller names none.
pub const DEFAULT_PAGE_SIZE: u64 = 10;

/// The smallest and the largest size of a page.
pub const MIN_PAGE_SIZE: u64 = 1;

pub const MAX_PAGE_SIZE: u64 = 100;

/// The page to ask for: the one named, but the first at least.
pub open spec fn page_number(page_no: Option<u64>) -> u64 {
    match page_no {
        Some(n) => if n < FIRST_PAGE {
            FIRST_PAGE
        } else {
            n
        },
        None => FIRST_PAGE,
    }
}

/// The size of the page to ask for: the one named, within the bounds.
pub open spec fn page_length(page_size: Option<u64>) -> u64 {
    match page_size {
        Some(n) => if n < MIN_PAGE_SIZE {
            MIN_PAGE_SIZE
        } else if n > MAX_PAGE_SIZE {
            MAX_PAGE_SIZE
        } else {
            n
        },
        None => DEFAULT_PAGE_SIZE,
    }
}

/// The page and the size of a page to ask the list of files for.
pub fn list_page(page_no: Option<u64>, page_size: Option<u64>) -> (r: (u64, u64))
    ensures
        r.0 == page_number(page_no),
        r.1 == page_length(page_size),
        r.0 >= 1,
        1 <= r.1 <= 100,
{
    let number = match page_no {
        Some(n) => if n < FIRST_PAGE {
            FIRST_PAGE
        } else {
            n
        },
        None => FIRST_PAGE,
    };
    let length = match page_size {
        Some(n) => if n < MIN_PAGE_SIZE {
            MIN_PAGE_SIZE
        } else if n > MAX_PAGE_SIZE {
            MAX_PAGE_SIZE
        } else {
            n
        },
        None => DEFAULT_PAGE_SIZE,
    };
    (number, length)
}

/// The path under which the file `file_id` is asked for and deleted.
pub fn file_path(file_id: &str) -> (r: String)
    ensures
        r@ == "files/"@ + file_id@,
{
    let mut path = String::new();
    path.append("files/");
    path.append(file_id);
    proof {
        assert(path@ =~= "files/"@ + file_id@);
    }
    path
}

/// The contents of a run of fields.
pub open spec fn fields_view(fs: Seq<(String, String)>) -> Seq<(Seq<char>, Seq<char>)> {
    Seq::new(fs.len(), |i: int| (fs[i].0@, fs[i].1@))
}

/// The text fields of the form that uploads files: the purpose, then one
/// field `descriptions` for each description, in order.
pub open spec fn upload_fields(purpose: Seq<char>, descriptions: Option<Seq<Seq<char>>>) -> Seq<
    (Seq<char>, Seq<char>),
> {
    seq![("purpose"@, purpose)] + (match descriptions {
        Some(ds) => Seq::new(ds.len(), |i: int| ("descriptions"@, ds[i])),
        None => Seq::empty(),
    })
}

/// The text fields of the form that uploads files; the files follow them.
pub fn upload_form(purpose: &str, descriptions: &Option<Vec<String>>) -> (r: Vec<(String, String)>)
    ensures
        fields_view(r@) == upload_fields(
            purpose@,
            match descriptions {
                Some(ds) => Some(crate::wire::texts_view(ds@)),
                None => None,
            },
        ),
{
    let mut fields: Vec<(String, String)> = Vec::new();
    fields.push(("purpose".to_owned(), purpose.to_owned()));
    match descriptions {
        Some(ds) => {
            let mut i: usize = 0;
            while i < ds.len()
                invariant
                    i <= ds.len(),
                    fields@.len() == i + 1,
                    fields@[0].0@ == "purpose"@,
                    fields@[0].1@ == purpose@,
                    forall|k: int|
                        0 <= k < i ==> (#[trigger] fields@[k + 1]).0@ == "descriptions"@
                            && fields@[k + 1].1@ == ds@[k]@,
                decreases ds.len() - i,
            {
                fields.push(("descriptions".to_owned(), ds[i].clone()));
                i += 1;
            }
            proof {
                let expected = upload_fields(purpose@, Some(crate::wire::texts_view(ds@)));
                assert(fields_view(fields@).len() == expected.len());
                assert forall|k: int| 0 <= k < expected.len() implies fields_view(fields@)[k]
                    == expected[k] by {
                    if k > 0 {
                        assert(fields@[(k - 1) + 1].1@ == ds@[k - 1]@);
                    }
                }
                assert(fields_view(fields@) =~= expected);
            }
        },
        None => {
            proof {
                assert(fields_view(fields@) =~= upload_fields(purpose@, None));
            }
        },
    }
    fields
}

} // verus!
