//! The record of a purchased work, as the local database keeps it.
use vstd::prelude::*;
use crate::api::WorkInfo;

verus! {

/// One purchased work.
pub struct Work {
    pub id: String,
    pub name: String,
    pub circle: String,
    pub file_count: i64,
    pub purchase_date: String,
}

/// The mathematical value of a [`Work`].
pub struct WorkModel {
    pub id: Seq<char>,
    pub name: Seq<char>,
    pub circle: Seq<char>,
    pub file_count: i64,
    pub purchase_date: Seq<char>,
}

impl View for Work {
    type V = WorkModel;

    open spec fn view(&self) -> WorkModel {
        WorkModel {
            id: self.id@,
            name: self.name@,
            circle: self.circle@,
            file_count: self.file_count,
            purchase_date: self.purchase_date@,
        }
    }
}

/// The values of a list of works.
pub open spec fn works_view(works: Seq<Work>) -> Seq<WorkModel> {
    works.map_values(|w: Work| w@)
}

/// The values of a list of `(circle, number of works)` pairs.
pub open spec fn circles_view(circles: Seq<(String, usize)>) -> Seq<(Seq<char>, usize)> {
    circles.map_values(|c: (String, usize)| (c.0@, c.1))
}

/// The record saved for work `workno`, bought on `sales_date`, once its
/// product information `info` is known: its title, its circle (the maker)
/// and the number of its files.
pub fn work_from_info(workno: &str, sales_date: &str, info: &WorkInfo) -> (w: Work)
    ensures
        w@ == (WorkModel {
            id: workno@,
            name: info.work_name@,
            circle: info.maker_name@,
            file_count: info.contents@.len() as i64,
            purchase_date: sales_date@,
        }),
{
    Work {
        id: crate::text::owned(workno),
        name: info.work_name.clone(),
        circle: info.maker_name.clone(),
        file_count: info.contents.len() as i64,
        purchase_date: crate::text::owned(sales_date),
    }
}

} // verus!
