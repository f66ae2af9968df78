//! The plugin's errors and the results of reading the Store's objects.

use vstd::prelude::*;

verus! {

/// An error that a Windows call reported.
#[derive(Debug, PartialEq, Eq)]
pub struct WindowsError {
    pub code: i32,
    pub message: String,
}

/// The contents of a [`WindowsError`].
pub struct WindowsErrorView {
    pub code: i32,
    pub message: Seq<char>,
}

impl View for WindowsError {
    type V = WindowsErrorView;

    open spec fn view(&self) -> WindowsErrorView {
        WindowsErrorView { code: self.code, message: self.message@ }
    }
}

impl Clone for WindowsError {
    fn clone(&self) -> (copy: Self)
        ensures
            copy == *self,
    {
        WindowsError { code: self.code, message: self.message.clone() }
    }
}

/// What reading one property of a Store object gave.
pub type Read<T> = Result<T, WindowsError>;

/// The answer of a rejected plugin call.
#[derive(Debug, PartialEq, Eq)]
pub struct ErrorResponse {
    pub code: Option<String>,
    pub message: Option<String>,
    pub data: (),
}

/// Why a plugin call did not succeed.
#[derive(Debug, PartialEq, Eq)]
pub enum PluginInvokeError {
    InvokeRejected(ErrorResponse),
}

/// The plugin's error type.
#[derive(Debug, PartialEq, Eq)]
pub enum Error {
    PluginInvoke(PluginInvokeError),
    Windows(WindowsError),
}

/// The contents of an [`Error`].
pub enum ErrorView {
    Rejected { code: Option<Seq<char>>, message: Option<Seq<char>> },
    Windows(WindowsErrorView),
}

/// An optional text as its characters.
pub open spec fn optional_text(text: Option<String>) -> Option<Seq<char>> {
    match text {
        Some(t) => Some(t@),
        None => None,
    }
}

impl View for Error {
    type V = ErrorView;

    open spec fn view(&self) -> ErrorView {
        match self {
            Error::PluginInvoke(PluginInvokeError::InvokeRejected(r)) => ErrorView::Rejected {
                code: optional_text(r.code),
                message: optional_text(r.message),
            },
            Error::Windows(e) => ErrorView::Windows(e@),
        }
    }
}

/// A rejection with a code and a message.
pub open spec fn rejected(code: Seq<char>, message: Seq<char>) -> ErrorView {
    ErrorView::Rejected { code: Some(code), message: Some(message) }
}

/// A result as its contents.
pub open spec fn outcome<T: View>(result: Result<T, Error>) -> Result<T::V, ErrorView> {
    match result {
        Ok(value) => Ok(value@),
        Err(error) => Err(error@),
    }
}

/// What was read, as its contents.
pub open spec fn reading<T: View>(read: Read<T>) -> Result<T::V, WindowsErrorView> {
    match read {
        Ok(value) => Ok(value@),
        Err(error) => Err(error@),
    }
}

/// The contents of every item of a list.
pub open spec fn contents<T: View>(items: Seq<T>) -> Seq<T::V> {
    items.map_values(|item: T| item@)
}

/// What was read of every item of a list, as its contents.
pub open spec fn readings<T: View>(items: Seq<Read<T>>) -> Seq<Result<T::V, WindowsErrorView>> {
    items.map_values(|item: Read<T>| reading(item))
}

/// What was read, as the outcome of a call that hands a failed read on.
pub open spec fn lifted<V>(read: Result<V, WindowsErrorView>) -> Result<V, ErrorView> {
    match read {
        Ok(value) => Ok(value),
        Err(error) => Err(ErrorView::Windows(error)),
    }
}

/// The text that was read, or the error of the read.
pub fn read_text(read: &Read<String>) -> (text: Result<String, Error>)
    ensures
        outcome(text) == lifted(reading(*read)),
{
    match read {
        Ok(value) => Ok(value.clone()),
        Err(error) => Err(Error::Windows(error.clone())),
    }
}

/// The number or flag that was read, or the error of the read.
pub fn read_value<T: Copy + View>(read: &Read<T>) -> (value: Result<T, Error>)
    ensures
        outcome(value) == lifted(reading(*read)),
{
    match read {
        Ok(value) => Ok(*value),
        Err(error) => Err(Error::Windows(error.clone())),
    }
}

/// Errors differ in their contents wherever they differ in kind, code or message:
/// what Windows reported stays apart from what the plugin rejected, and a
/// rejection without a code or a message stays one.
pub proof fn law_error_contents(error: Error)
    ensures
        error matches Error::Windows(e) ==> {
            &&& error@ is Windows
            &&& error@->Windows_0.code == e.code
            &&& error@->Windows_0.message == e.message@
        },
        error matches Error::PluginInvoke(PluginInvokeError::InvokeRejected(r)) ==> {
            &&& error@ is Rejected
            &&& error@->code is Some <==> r.code is Some
            &&& r.code matches Some(code) ==> error@->code == Some(code@)
            &&& error@->Rejected_message is Some <==> r.message is Some
            &&& r.message matches Some(message) ==> error@->Rejected_message == Some(message@)
        },
{
}

/// A rejection always has its code and its message.
pub proof fn law_rejected(code: Seq<char>, message: Seq<char>)
    ensures
        rejected(code, message) is Rejected,
        rejected(code, message)->code == Some(code),
        rejected(code, message)->Rejected_message == Some(message),
{
}

/// A value stays a value and an error an error, each with its contents, whether
/// it is the outcome of a call or what was read; a failed read that is handed on
/// is the error that Windows reported.
pub proof fn law_outcomes<T: View>(result: Result<T, Error>, read: Read<T>)
    ensures
        outcome(result) is Ok <==> result is Ok,
        result matches Ok(value) ==> outcome(result)->Ok_0 == value@,
        result matches Err(error) ==> outcome(result)->Err_0 == error@,
        reading(read) is Ok <==> read is Ok,
        read matches Ok(value) ==> reading(read)->Ok_0 == value@,
        read matches Err(error) ==> reading(read)->Err_0 == error@,
        lifted(reading(read)) is Ok <==> read is Ok,
        read matches Ok(value) ==> lifted(reading(read))->Ok_0 == value@,
        read matches Err(error) ==> lifted(reading(read))->Err_0 == ErrorView::Windows(error@),
{
}

/// The contents of a list are those of its items, one for one and in order.
pub proof fn law_list_contents<T: View>(items: Seq<T>, reads: Seq<Read<T>>)
    ensures
        contents(items).len() == items.len(),
        forall|i: int| 0 <= i < items.len() ==> #[trigger] contents(items)[i] == items[i]@,
        readings(reads).len() == reads.len(),
        forall|i: int|
            0 <= i < reads.len() ==> #[trigger] readings(reads)[i] == reading(reads[i]),
{
}

} // verus!
