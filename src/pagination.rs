use vstd::prelude::*;
use vstd::std_specs::iter::IteratorSpec;

verus! {

/// Why a page of a list could not be cut.
#[derive(Debug, Clone, Copy, PartialEq, Eq, Structural)]
pub enum PaginationError {
    /// The requested page size was zero.
    ZeroSize,
    /// The requested page starts at or past the end of the list.
    OutOfRange,
}

/// Page and size as a client asked for them; both may be missing.
#[derive(Debug, Clone, Copy)]
pub struct PaginationQuery {
    pub page: Option<usize>,
    pub size: Option<usize>,
}

/// One page of a longer list.
///
/// `page` is 0 indexed; `data` holds only the elements of the current page.
pub struct Paginated<T> {
    pub page: usize,
    pub size: usize,
    pub total_element_count: usize,
    pub data: Vec<T>,
}

/// Number of pages of `size` elements needed for `total` elements.
pub open spec fn page_count(total: int, size: int) -> int
    recommends
        size > 0,
{
    (total + size - 1) / size
}

impl PaginationQuery {
    /// The page size that applies: the requested one, or `default_page_size`.
    pub open spec fn effective_size(self, default_page_size: usize) -> usize {
        match self.size {
            Some(s) => s,
            None => default_page_size,
        }
    }

    /// The page index that applies: the requested one, or the first page.
    pub open spec fn effective_page(self) -> usize {
        match self.page {
            Some(p) => p,
            None => 0,
        }
    }

    /// Cuts the requested page out of `data`.
    ///
    /// Succeeds exactly when the page size is positive and the page starts
    /// inside the list; the page then holds the elements from
    /// `page * size` up to `page * size + size` or the end of the list.
    pub fn into_paginated<T: Clone>(self, default_page_size: usize, data: &[T]) -> (r: Result<
        Paginated<T>,
        PaginationError,
    >)
        ensures
            self.effective_size(default_page_size) == 0 ==> r == Err::<Paginated<T>, _>(
                PaginationError::ZeroSize,
            ),
            self.effective_size(default_page_size) > 0 ==> {
                let size = self.effective_size(default_page_size) as int;
                let start = self.effective_page() * size;
                let end = if start + size < data@.len() {
                    start + size
                } else {
                    data@.len() as int
                };
                &&& start < data@.len() ==> (r matches Ok(p) && p.is_page_of(
                    data@,
                    self.effective_page(),
                    size as usize,
                ))
                &&& start >= data@.len() ==> r == Err::<Paginated<T>, _>(
                    PaginationError::OutOfRange,
                )
            },
    {
        let size = match self.size {
            Some(s) => s,
            None => default_page_size,
        };
        if size == 0 {
            return Err(PaginationError::ZeroSize);
        }
        let page = match self.page {
            Some(p) => p,
            None => 0,
        };
        let total_element_count = data.len();
        if total_element_count == 0 || page > (total_element_count - 1) / size {
            assert(page * size >= total_element_count) by (nonlinear_arith)
                requires
                    total_element_count == 0 || page > (total_element_count - 1) / size as int,
                    size > 0,
            ;
            return Err(PaginationError::OutOfRange);
        }
        assert(page * size < total_element_count) by (nonlinear_arith)
            requires
                page <= (total_element_count - 1) / size as int,
                total_element_count > 0,
                size > 0,
        ;
        let start = page * size;
        let end = if size < total_element_count - start {
            start + size
        } else {
            total_element_count
        };
        let mut page_data: Vec<T> = Vec::new();
        let mut i = start;
        while i < end
            invariant
                start <= i <= end <= data@.len(),
                page_data@.len() == i - start,
                forall|k: int| 0 <= k < i - start ==> cloned(#[trigger] data@[start + k], page_data@[k]),
            decreases end - i,
        {
            page_data.push(data[i].clone());
            i = i + 1;
        }
        Ok(Paginated { page, size, total_element_count, data: page_data })
    }
}

impl<T: Clone> Paginated<T> {
    /// This value is page `page` of `all`, cut in pages of `size` elements
    /// (each element a clone of the one in `all`).
    pub open spec fn is_page_of(self, all: Seq<T>, page: usize, size: usize) -> bool
        recommends
            size > 0,
    {
        let start = page * size;
        let end = if start + size < all.len() {
            start + size
        } else {
            all.len() as int
        };
        &&& self.page == page
        &&& self.size == size
        &&& self.total_element_count == all.len()
        &&& self.data@.len() == end - start
        &&& forall|i: int| 0 <= i < end - start ==> cloned(#[trigger] all[start + i], self.data@[i])
    }
}

impl<T> Paginated<T> {
    /// Index of the page before this one; the first page is its own predecessor.
    pub fn previous(&self) -> (r: usize)
        ensures
            r == if self.page > 0 {
                self.page - 1
            } else {
                0
            },
    {
        self.page.saturating_sub(1)
    }

    /// Number of pages in the whole list.
    pub fn total_pages(&self) -> (r: usize)
        requires
            self.size > 0,
        ensures
            r == page_count(self.total_element_count as int, self.size as int),
    {
        let q = self.total_element_count / self.size;
        if self.total_element_count % self.size == 0 {
            proof {
                assert(page_count(self.total_element_count as int, self.size as int) == q)
                    by (nonlinear_arith)
                    requires
                        self.total_element_count % self.size == 0,
                        q == self.total_element_count / self.size,
                        self.size > 0,
                ;
            }
            q
        } else {
            proof {
                assert(page_count(self.total_element_count as int, self.size as int) == q + 1)
                    by (nonlinear_arith)
                    requires
                        self.total_element_count % self.size != 0,
                        q == self.total_element_count / self.size,
                        self.size > 0,
                ;
                assert(q + 1 <= self.total_element_count) by (nonlinear_arith)
                    requires
                        self.total_element_count % self.size != 0,
                        q == self.total_element_count / self.size,
                        self.size > 0,
                ;
            }
            q + 1
        }
    }

    /// Index of the page after this one; the last page is its own successor.
    pub fn next(&self) -> (r: usize)
        requires
            self.size > 0,
        ensures
            r == if self.page + 1 < page_count(self.total_element_count as int, self.size as int) {
                self.page + 1
            } else {
                self.page as int
            },
    {
        let total = self.total_pages();
        if total > 0 && self.page < total - 1 {
            self.page + 1
        } else {
            self.page
        }
    }

    /// Whether the list spans more than one page.
    pub fn need_pagination(&self) -> (r: bool)
        requires
            self.size > 0,
        ensures
            r == (page_count(self.total_element_count as int, self.size as int) > 1),
    {
        self.total_pages() > 1
    }

    /// Whether this page holds no element.
    pub fn is_empty(&self) -> (r: bool)
        ensures
            r == (self.data@.len() == 0),
    {
        self.data.len() == 0
    }
    /// Applies `f` to each element of the page, keeping the page's position.
    pub fn map<U, F>(self, f: F) -> (r: Paginated<U>)
        where
            F: Fn(T) -> U,
        requires
            forall|t: T| f.requires((t,)),
        ensures
            r.page == self.page,
            r.size == self.size,
            r.total_element_count == self.total_element_count,
            r.data@.len() == self.data@.len(),
            forall|i: int| 0 <= i < self.data@.len() ==> f.ensures((self.data@[i],), #[trigger] r.data@[i]),
    {
        let Paginated { page, size, total_element_count, data } = self;
        let mut rest = data;
        let mut out: Vec<U> = Vec::new();
        let ghost all = rest@;
        while rest.len() > 0
            invariant
                forall|t: T| f.requires((t,)),
                out@.len() + rest@.len() == all.len(),
                rest@ == all.subrange(out@.len() as int, all.len() as int),
                forall|i: int| 0 <= i < out@.len() ==> f.ensures((all[i],), #[trigger] out@[i]),
            decreases rest@.len(),
        {
            let t = rest.remove(0);
            let u = f(t);
            out.push(u);
        }
        Paginated { page, size, total_element_count, data: out }
    }

    /// Walks the elements of the page in order.
    pub fn iter(&self) -> (r: std::slice::Iter<'_, T>)
        ensures
            r.remaining() == self.data@.map_values(|t: T| &t),
    {
        self.data.as_slice().iter()
    }
}

impl<T, E> Paginated<Result<T, E>> {
    /// Turns a page of results into a page of values, or the first error.
    pub fn into_result(self) -> (r: Result<Paginated<T>, E>)
        ensures
            (forall|i: int| 0 <= i < self.data@.len() ==> self.data@[i] is Ok) ==> (r matches Ok(
                p,
            ) && p.page == self.page && p.size == self.size && p.total_element_count
                == self.total_element_count && p.data@.len() == self.data@.len() && forall|i: int|
                0 <= i < self.data@.len() ==> self.data@[i] == Ok::<T, E>(#[trigger] p.data@[i])),
            forall|k: int|
                0 <= k < self.data@.len() && self.data@[k] is Err && (forall|i: int|
                    0 <= i < k ==> self.data@[i] is Ok) ==> r == Err::<Paginated<T>, E>(
                    self.data@[k]->Err_0,
                ),
    {
        let Paginated { page, size, total_element_count, data } = self;
        let mut rest = data;
        let mut out: Vec<T> = Vec::new();
        let ghost all = rest@;
        while rest.len() > 0
            invariant
                all == self.data@,
                out@.len() + rest@.len() == all.len(),
                rest@ == all.subrange(out@.len() as int, all.len() as int),
                forall|i: int| 0 <= i < out@.len() ==> all[i] == Ok::<T, E>(#[trigger] out@[i]),
            decreases rest@.len(),
        {
            let item = rest.remove(0);
            match item {
                Ok(t) => out.push(t),
                Err(e) => {
                    proof {
                        let n = out@.len() as int;
                        assert(all[n] == Err::<T, E>(e));
                        assert forall|k: int|
                            0 <= k < all.len() && all[k] is Err && (forall|i: int|
                                0 <= i < k ==> all[i] is Ok) implies Err::<Paginated<T>, E>(e)
                            == Err::<Paginated<T>, E>(all[k]->Err_0) by {
                            if k < n {
                                assert(all[k] == Ok::<T, E>(out@[k]));
                            } else if k > n {
                                assert(all[n] is Ok);
                            }
                        }
                    }
                    return Err(e);
                },
            }
        }
        proof {
            assert forall|k: int| 0 <= k < all.len() implies all[k] is Ok by {
                assert(all[k] == Ok::<T, E>(out@[k]));
            }
        }
        Ok(Paginated { page, size, total_element_count, data: out })
    }
}

} // verus!
