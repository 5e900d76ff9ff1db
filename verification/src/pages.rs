use vstd::prelude::*;

verus! {

/// A page of the window: the home page or the other (settings) page, each
/// held by the handle `H` or `O` that renders it.
#[derive(Clone, Copy, Debug, PartialEq, Eq)]
pub enum Page<H, O> {
    Home(H),
    OtherPage(O),
}

impl<H, O> Page<H, O> {
    /// The home page shown by `view`.
    pub fn home(view: H) -> (page: Self)
        ensures
            page == Page::<H, O>::Home(view),
    {
        Page::Home(view)
    }

    /// The settings page shown by `view`.
    pub fn settings(view: O) -> (page: Self)
        ensures
            page == Page::<H, O>::OtherPage(view),
    {
        Page::OtherPage(view)
    }
}

/// The window's state: the page it shows.
pub struct AppWindow<P> {
    page: P,
}

impl<P> View for AppWindow<P> {
    type V = P;

    closed spec fn view(&self) -> P {
        self.page
    }
}

impl<P> AppWindow<P> {
    /// A window showing `page`.
    pub fn new(page: P) -> (window: Self)
        ensures
            window@ == page,
    {
        AppWindow { page }
    }

    /// Shows `page` in place of the current page; the caller repaints.
    pub fn set_page(&mut self, page: P)
        ensures
            final(self)@ == page,
    {
        self.page = page;
    }

    /// The page the window shows.
    pub fn page(&self) -> (page: &P)
        ensures
            *page == self@,
    {
        &self.page
    }
}

} // verus!
