use vstd::prelude::*;

verus! {

/// The error of a clipboard operation. The in-memory provider below never
/// fails; the type exists for providers that can.
#[derive(Clone, Copy, Debug)]
pub struct Error;

impl Error {
    /// A human-readable description; this error carries no detail.
    pub fn message(&self) -> (r: String)
        ensures
            r@ == Seq::<char>::empty(),
    {
        String::new()
    }
}

/// A clipboard backend: something that can be created, read, overwritten
/// and cleared. Reading does not change the contents; a successful write
/// or clear leaves exactly what was written.
pub trait ClipboardProvider: Sized {
    /// The clipboard's current contents.
    spec fn contents_view(&self) -> Seq<char>;

    fn new() -> (r: Result<Self, Error>);

    fn get_contents(&mut self) -> (r: Result<String, Error>)
        ensures
            final(self).contents_view() == old(self).contents_view(),
            r matches Ok(s) ==> s@ == old(self).contents_view(),
    ;

    fn set_contents(&mut self, contents: String) -> (r: Result<(), Error>)
        ensures
            r is Ok ==> final(self).contents_view() == contents@,
    ;

    fn clear(&mut self) -> (r: Result<(), Error>)
        ensures
            r is Ok ==> final(self).contents_view() == Seq::<char>::empty(),
    ;
}

/// An in-memory clipboard: the fallback provider when no system clipboard
/// is wired up. None of its operations fail.
pub struct ClipboardContext {
    contents: String,
}

impl ClipboardProvider for ClipboardContext {
    closed spec fn contents_view(&self) -> Seq<char> {
        self.contents@
    }

    fn new() -> (r: Result<Self, Error>) {
        Ok(Self { contents: String::new() })
    }

    fn get_contents(&mut self) -> (r: Result<String, Error>) {
        Ok(self.contents.clone())
    }

    fn set_contents(&mut self, contents: String) -> (r: Result<(), Error>) {
        self.contents = contents;
        Ok(())
    }

    fn clear(&mut self) -> (r: Result<(), Error>) {
        self.contents = String::new();
        Ok(())
    }
}

} // verus!
