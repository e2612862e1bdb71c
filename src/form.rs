use vstd::prelude::*;

use crate::calendar::CalendarDate;
use crate::number::{int_text, int_to_string, two_digit_text, two_digits};

verus! {

/// What a runner reports to the society for one completed town.
pub struct Run169TownsSocietyGoogleFormAnswers {
    pub town_name: String,
    pub race_name: String,
    /// The distance in miles, as decimal text.
    pub distance_val: String,
    pub race_date: CalendarDate,
    pub notes: String,
    pub member_id: String,
    pub first_name: String,
    pub last_name: String,
}

/// The society's completion form: its identifier and the identifier of each
/// of its questions.
pub struct Run169TownsSocietyGoogleForm {
    pub form_id: String,
    pub member_id: String,
    pub action: String,
    pub first_name: String,
    pub last_name: String,
    pub town_of_race: String,
    pub date_of_race_year: String,
    pub date_of_race_month: String,
    pub date_of_race_day: String,
    pub distance: String,
    pub name_of_race: String,
    pub is_169th_town: String,
    pub notify_others: String,
    pub comment: String,
    /// Field name and value of each answer, in the order given; where a field
    /// name repeats, the later value is the one sent.
    pub answers: Vec<(String, String)>,
}

/// The form with its answers filled in, ready to send.
pub struct CompletedRun169TownsSocietyGoogleForm(pub Run169TownsSocietyGoogleForm);

/// The answers as text pairs.
pub open spec fn pairs_view(s: Seq<(String, String)>) -> Seq<(Seq<char>, Seq<char>)> {
    s.map_values(|p: (String, String)| (p.0@, p.1@))
}

/// The form's name for the question with identifier `id`.
pub open spec fn entry_name(id: Seq<char>) -> Seq<char> {
    "entry."@ + id
}

/// The answers that `a` gives to the questions of `f`, in the order they are
/// filled in.
pub open spec fn answer_pairs(
    f: Run169TownsSocietyGoogleForm,
    a: Run169TownsSocietyGoogleFormAnswers,
) -> Seq<(Seq<char>, Seq<char>)> {
    seq![
        (entry_name(f.member_id@), a.member_id@),
        (entry_name(f.action@), "New"@),
        (entry_name(f.first_name@), a.first_name@),
        (entry_name(f.last_name@), a.last_name@),
        (entry_name(f.town_of_race@), a.town_name@),
        (entry_name(f.date_of_race_year@), int_text(a.race_date.year as int)),
        (entry_name(f.date_of_race_month@), two_digit_text(a.race_date.month as nat)),
        (entry_name(f.date_of_race_day@), two_digit_text(a.race_date.day as nat)),
        (entry_name(f.distance@), a.distance_val@),
        (entry_name(f.name_of_race@), a.race_name@),
        (entry_name(f.is_169th_town@), "No"@),
        (entry_name(f.notify_others@), "No"@),
        (entry_name(f.comment@), a.notes@),
    ]
}

/// The address that takes the answers of the form `form_id`.
pub open spec fn response_url(form_id: Seq<char>) -> Seq<char> {
    "https://docs.google.com/forms/d/e/"@ + form_id + "/formResponse"@
}

fn entry(id: &String) -> (r: String)
    ensures
        r@ == entry_name(id@),
{
    let mut name = String::from_str("entry.");
    name.append(id.as_str());
    name
}

fn push_answer(answers: &mut Vec<(String, String)>, id: &String, value: String)
    ensures
        pairs_view(final(answers)@) == pairs_view(old(answers)@).push((entry_name(id@), value@)),
{
    let ghost before = answers@;
    answers.push((entry(id), value));
    assert(pairs_view(answers@) =~= pairs_view(before).push((entry_name(id@), value@)));
}

impl Run169TownsSocietyGoogleForm {
    /// Fills in the answers of `form`, after any answers already held.
    pub fn add_answers(self, form: Run169TownsSocietyGoogleFormAnswers) -> (r:
        CompletedRun169TownsSocietyGoogleForm)
        ensures
            pairs_view(r.0.answers@) == pairs_view(self.answers@) + answer_pairs(self, form),
            r.0.form_id@ == self.form_id@,
    {
        let ghost start = pairs_view(self.answers@);
        let ghost expected = answer_pairs(self, form);
        let mut answers = self.answers;
        push_answer(&mut answers, &self.member_id, form.member_id);
        push_answer(&mut answers, &self.action, String::from_str("New"));
        push_answer(&mut answers, &self.first_name, form.first_name);
        push_answer(&mut answers, &self.last_name, form.last_name);
        push_answer(&mut answers, &self.town_of_race, form.town_name);
        push_answer(
            &mut answers,
            &self.date_of_race_year,
            int_to_string(form.race_date.year as i64),
        );
        push_answer(&mut answers, &self.date_of_race_month, two_digits(form.race_date.month));
        push_answer(&mut answers, &self.date_of_race_day, two_digits(form.race_date.day));
        push_answer(&mut answers, &self.distance, form.distance_val);
        push_answer(&mut answers, &self.name_of_race, form.race_name);
        push_answer(&mut answers, &self.is_169th_town, String::from_str("No"));
        push_answer(&mut answers, &self.notify_others, String::from_str("No"));
        push_answer(&mut answers, &self.comment, form.notes);
        assert(pairs_view(answers@) =~= start + expected);
        CompletedRun169TownsSocietyGoogleForm(
            Run169TownsSocietyGoogleForm {
                form_id: self.form_id,
                member_id: self.member_id,
                action: self.action,
                first_name: self.first_name,
                last_name: self.last_name,
                town_of_race: self.town_of_race,
                date_of_race_year: self.date_of_race_year,
                date_of_race_month: self.date_of_race_month,
                date_of_race_day: self.date_of_race_day,
                distance: self.distance,
                name_of_race: self.name_of_race,
                is_169th_town: self.is_169th_town,
                notify_others: self.notify_others,
                comment: self.comment,
                answers,
            },
        )
    }
}

impl CompletedRun169TownsSocietyGoogleForm {
    /// The address that the answers are posted to.
    pub fn submit_url(&self) -> (r: String)
        ensures
            r@ == response_url(self.0.form_id@),
    {
        let mut url = String::from_str("https://docs.google.com/forms/d/e/");
        url.append(self.0.form_id.as_str());
        url.append("/formResponse");
        url
    }
}

} // verus!
