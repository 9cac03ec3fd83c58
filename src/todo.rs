use vstd::prelude::*;

verus! {

/// One task record of the list.
#[derive(Debug)]
pub struct Todo {
    pub id: u32,
    pub title: String,
    pub completed: bool,
    pub due_date: Option<String>,
    pub worked_at: Option<String>,
    pub done_at: Option<String>,
}

/// What a task record holds, as mathematical values.
pub struct TodoView {
    pub id: u32,
    pub title: Seq<char>,
    pub completed: bool,
    pub due_date: Option<Seq<char>>,
    pub worked_at: Option<Seq<char>>,
    pub done_at: Option<Seq<char>>,
}

pub open spec fn opt_text_view(o: Option<String>) -> Option<Seq<char>> {
    match o {
        Some(s) => Some(s@),
        None => None,
    }
}

impl View for Todo {
    type V = TodoView;

    open spec fn view(&self) -> TodoView {
        TodoView {
            id: self.id,
            title: self.title@,
            completed: self.completed,
            due_date: opt_text_view(self.due_date),
            worked_at: opt_text_view(self.worked_at),
            done_at: opt_text_view(self.done_at),
        }
    }
}

/// The mathematical value of a whole list, in order.
pub open spec fn list_view(todos: Seq<Todo>) -> Seq<TodoView> {
    todos.map_values(|t: Todo| t@)
}

impl Todo {
    /// A record with the three required fields and no dates.
    pub fn new(id: u32, title: String, completed: bool) -> (r: Todo)
        ensures
            r.id == id,
            r.title == title,
            r.completed == completed,
            r.due_date.is_none(),
            r.worked_at.is_none(),
            r.done_at.is_none(),
    {
        Todo { id, title, completed, due_date: None, worked_at: None, done_at: None }
    }
}

impl Clone for Todo {
    fn clone(&self) -> (r: Todo)
        ensures
            r == *self,
    {
        Todo {
            id: self.id,
            title: self.title.clone(),
            completed: self.completed,
            due_date: clone_opt(&self.due_date),
            worked_at: clone_opt(&self.worked_at),
            done_at: clone_opt(&self.done_at),
        }
    }
}

fn clone_opt(o: &Option<String>) -> (r: Option<String>)
    ensures
        r == *o,
{
    match o {
        Some(s) => Some(s.clone()),
        None => None,
    }
}

fn same_opt(a: &Option<String>, b: &Option<String>) -> (r: bool)
    ensures
        r == (opt_text_view(*a) == opt_text_view(*b)),
{
    match (a, b) {
        (Some(x), Some(y)) => *x == *y,
        (None, None) => true,
        _ => false,
    }
}

impl PartialEq for Todo {
    fn eq(&self, o: &Todo) -> (r: bool) {
        self.id == o.id && self.title == o.title && self.completed == o.completed
            && same_opt(&self.due_date, &o.due_date) && same_opt(&self.worked_at, &o.worked_at)
            && same_opt(&self.done_at, &o.done_at)
    }
}

impl vstd::std_specs::cmp::PartialEqSpecImpl for Todo {
    open spec fn obeys_eq_spec() -> bool {
        true
    }

    open spec fn eq_spec(&self, o: &Todo) -> bool {
        self@ == o@
    }
}

} // verus!
