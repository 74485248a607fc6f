//! The title / options / duration part that the poll and prediction forms share.
use vstd::prelude::*;

verus! {

/// A form with a title, a list of answer options and a duration in minutes.
pub trait EditableForm: Sized {
    const MIN_OPTIONS: usize = 2;
    const MAX_OPTIONS: usize;

    spec fn title_view(&self) -> Seq<char>;

    spec fn options_view(&self) -> Seq<String>;

    spec fn duration_view(&self) -> usize;

    /// Everything outside title, options and duration is the same in both forms.
    spec fn rest_same(&self, other: &Self) -> bool;

    fn options_mut(&mut self) -> (r: &mut Vec<String>)
        ensures
            r@ == old(self).options_view(),
            final(self).options_view() == final(r)@,
            final(self).title_view() == old(self).title_view(),
            final(self).duration_view() == old(self).duration_view(),
            final(self).rest_same(&*old(self)),
    ;

    fn set_duration(&mut self, d: usize)
        ensures
            final(self).duration_view() == d,
            final(self).title_view() == old(self).title_view(),
            final(self).options_view() == old(self).options_view(),
            final(self).rest_same(&*old(self)),
    ;

    fn set_title(&mut self, name: String)
        ensures
            final(self).title_view() == name@,
            final(self).options_view() == old(self).options_view(),
            final(self).duration_view() == old(self).duration_view(),
            final(self).rest_same(&*old(self)),
    ;
}

/// An edit of the shared form part.
#[derive(Debug, Clone)]
pub enum BaseFormMessage {
    TitleChanged(String),
    OptionChanged(usize, String),
    AddOption,
    RemoveOption(usize),
    DurationChanged(usize),
}

/// Removing an option is only possible for an existing one, once there are more than
/// the minimum number of options.
pub open spec fn base_change_allowed(options: Seq<String>, min: usize, message: BaseFormMessage) -> bool {
    match message {
        BaseFormMessage::RemoveOption(idx) => options.len() > min ==> idx < options.len(),
        _ => true,
    }
}

/// Applies an edit to the title, options and duration of a form. Changing an
/// option that does not exist does nothing; removing one does nothing while only the
/// minimum number of options is left.
pub fn handle_base_changes<T: EditableForm>(form: &mut T, message: BaseFormMessage)
    requires
        base_change_allowed(old(form).options_view(), T::MIN_OPTIONS, message),
    ensures
        final(form).rest_same(&*old(form)),
        match message {
            BaseFormMessage::TitleChanged(t) => {
                &&& final(form).title_view() == t@
                &&& final(form).options_view() == old(form).options_view()
                &&& final(form).duration_view() == old(form).duration_view()
            },
            BaseFormMessage::OptionChanged(idx, val) => {
                &&& final(form).title_view() == old(form).title_view()
                &&& final(form).options_view() == if idx < old(form).options_view().len() {
                    old(form).options_view().update(idx as int, val)
                } else {
                    old(form).options_view()
                }
                &&& final(form).duration_view() == old(form).duration_view()
            },
            BaseFormMessage::AddOption => {
                &&& final(form).title_view() == old(form).title_view()
                &&& final(form).options_view().len() == old(form).options_view().len() + 1
                &&& final(form).options_view().drop_last() == old(form).options_view()
                &&& final(form).options_view().last()@ == Seq::<char>::empty()
                &&& final(form).duration_view() == old(form).duration_view()
            },
            BaseFormMessage::RemoveOption(idx) => {
                &&& final(form).title_view() == old(form).title_view()
                &&& final(form).options_view() == if old(form).options_view().len() > T::MIN_OPTIONS {
                    old(form).options_view().remove(idx as int)
                } else {
                    old(form).options_view()
                }
                &&& final(form).duration_view() == old(form).duration_view()
            },
            BaseFormMessage::DurationChanged(d) => {
                &&& final(form).title_view() == old(form).title_view()
                &&& final(form).options_view() == old(form).options_view()
                &&& final(form).duration_view() == d
            },
        },
{
    match message {
        BaseFormMessage::TitleChanged(t) => {
            form.set_title(t);
        },
        BaseFormMessage::OptionChanged(idx, val) => {
            let options = form.options_mut();
            if idx < options.len() {
                options.set(idx, val);
            }
        },
        BaseFormMessage::AddOption => {
            form.options_mut().push(String::new());
        },
        BaseFormMessage::RemoveOption(idx) => {
            let options = form.options_mut();
            if options.len() > T::MIN_OPTIONS {
                options.remove(idx);
            }
        },
        BaseFormMessage::DurationChanged(d) => {
            form.set_duration(d);
        },
    }
}

} // verus!
