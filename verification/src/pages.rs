//! The HTML pages of the service: the form page, the spreadsheet page, the
//! list of tasks, and the administrator's list.
use crate::html::FORM_HEAD;
use crate::html::FORM_TAIL;
use crate::html::HTML_HEAD;
use crate::html::HTML_TAIL;
use crate::html::SCRIPT;
use crate::table_page::REFRESH_BUTTON;
use crate::table_page::TABLE;
use crate::text::first_two_words;
use crate::json::lemma_white_space_is_rare;
use crate::json::white_space;
use crate::text::lemma_words_append_word;
use crate::text::lemma_words_trailing_space;
use crate::text::words;
use vstd::prelude::*;

verus! {

/// Shown in a task list when there is no task to collect.
pub const NO_TASKS: &'static str = "<div>当前无可收集表单</div>";

/// A task a form is collected for: its name (used in paths and as the storage
/// tree) and its title (shown to people).
pub struct TaskEntry {
    pub name: String,
    pub title: String,
}

/// The task that a line of the task file describes: its first two
/// whitespace-separated words are the name and the title.
pub open spec fn line_task(line: Seq<char>) -> (Seq<char>, Seq<char>) {
    (words(line)[0], words(line)[1])
}

/// Reads a line of the task file, which holds at least two words.
pub fn parse_task_line(line: &str) -> (r: TaskEntry)
    requires
        words(line@).len() >= 2,
    ensures
        (r.name@, r.title@) == line_task(line@),
{
    match first_two_words(line) {
        Some((name, title)) => TaskEntry { name, title },
        None => vstd::pervasive::unreached(),
    }
}

/// Reads any line of the task file: `parse_task_line` where the line has two
/// words, `None` where it has fewer.
pub fn try_parse_task_line(line: &str) -> (r: Option<TaskEntry>)
    ensures
        r is Some <==> words(line@).len() >= 2,
        r matches Some(t) ==> (t.name@, t.title@) == line_task(line@),
{
    if first_two_words(line).is_some() {
        Some(parse_task_line(line))
    } else {
        None
    }
}

/// A task written as its name, a space and its title reads back as that
/// name and title, when neither is empty nor holds whitespace.
pub proof fn lemma_task_line_round_trip(name: Seq<char>, title: Seq<char>)
    requires
        name.len() > 0,
        title.len() > 0,
        forall|i: int| 0 <= i < name.len() ==> !white_space(#[trigger] name[i]),
        forall|i: int| 0 <= i < title.len() ==> !white_space(#[trigger] title[i]),
    ensures
        words(name + seq![' '] + title).len() == 2,
        line_task(name + seq![' '] + title) == (name, title),
{
    let empty = Seq::<char>::empty();
    lemma_words_append_word(empty, name);
    assert(empty + name =~= name);
    assert(words(empty) =~= Seq::<Seq<char>>::empty());
    let p = name + seq![' '];
    assert(white_space(' '));
    lemma_words_trailing_space(name, ' ');
    assert(name.push(' ') =~= p);
    lemma_words_append_word(p, title);
    assert(words(p + title) =~= seq![name, title]);
}

/// A run of printable ASCII characters other than the space, or of
/// characters above U+3000, is a single word: `split_whitespace` never splits
/// it (so `sign-up` stays one word).
pub proof fn lemma_printable_run_is_one_word(s: Seq<char>)
    requires
        s.len() > 0,
        forall|i: int|
            0 <= i < s.len() ==> 0x21 <= (#[trigger] s[i]) as u32 <= 0x7e || s[i] as u32 > 0x3000,
    ensures
        words(s) == seq![s],
{
    assert forall|i: int| 0 <= i < s.len() implies !white_space(#[trigger] s[i]) by {
        lemma_white_space_is_rare(s[i]);
    };
    let empty = Seq::<char>::empty();
    lemma_words_append_word(empty, s);
    assert(empty + s =~= s);
    assert(words(empty) =~= Seq::<Seq<char>>::empty());
    assert(words(empty).push(s) =~= seq![s]);
}

/// A line of two such runs separated by a space reads back as the task named
/// by the first run and titled by the second.
pub proof fn lemma_printable_task_line(name: Seq<char>, title: Seq<char>)
    requires
        name.len() > 0,
        title.len() > 0,
        forall|i: int|
            0 <= i < name.len() ==> 0x21 <= (#[trigger] name[i]) as u32 <= 0x7e || name[i] as u32
                > 0x3000,
        forall|i: int|
            0 <= i < title.len() ==> 0x21 <= (#[trigger] title[i]) as u32 <= 0x7e || title[i]
                as u32 > 0x3000,
    ensures
        words(name + seq![' '] + title) == seq![name, title],
        line_task(name + seq![' '] + title) == (name, title),
{
    assert forall|i: int| 0 <= i < name.len() implies !white_space(#[trigger] name[i]) by {
        lemma_white_space_is_rare(name[i]);
    };
    assert forall|i: int| 0 <= i < title.len() implies !white_space(#[trigger] title[i]) by {
        lemma_white_space_is_rare(title[i]);
    };
    lemma_task_line_round_trip(name, title);
    let empty = Seq::<char>::empty();
    lemma_words_append_word(empty, name);
    assert(empty + name =~= name);
    assert(words(empty) =~= Seq::<Seq<char>>::empty());
    lemma_words_trailing_space(name, ' ');
    assert(white_space(' '));
    assert(name.push(' ') =~= name + seq![' ']);
    lemma_words_append_word(name + seq![' '], title);
    assert(words(name + seq![' '] + title) =~= seq![name, title]);
}

/// The form page holds the form fields whole and in place: the page for any
/// fields is the page for no fields with the fields inserted where the form's
/// fields go, just before the form's tail.
pub proof fn lemma_show_page_holds_fields(
    task_name: Seq<char>,
    title_name: Seq<char>,
    content: Seq<char>,
)
    ensures
        ({
            let bare = show_page_text(task_name, title_name, Seq::empty());
            let k = bare.len() - (FORM_TAIL@ + SCRIPT@ + HTML_TAIL@).len();
            &&& show_page_text(task_name, title_name, content) == bare.take(k) + content + bare.skip(
                k,
            )
            &&& show_page_text(task_name, title_name, content).len() == bare.len() + content.len()
        }),
        ({
            let page = show_page_text(task_name, title_name, content);
            let h: int = (HTML_HEAD@ + FORM_HEAD@
                + "<h1 class='col-sm-12' style='text-align:center'>"@).len() as int;
            let m: int = ("</h1>"@ + "<input type='hidden' name='task_name' value='"@).len() as int;
            let ti: int = title_name.len() as int;
            &&& page.subrange(h, h + ti) == title_name
            &&& page.subrange(h + ti + m, h + ti + m + task_name.len()) == task_name
        }),
{
    let p = HTML_HEAD@ + FORM_HEAD@ + "<h1 class='col-sm-12' style='text-align:center'>"@
        + title_name + "</h1>"@ + "<input type='hidden' name='task_name' value='"@ + task_name
        + "'>"@;
    let t = FORM_TAIL@ + SCRIPT@ + HTML_TAIL@;
    let bare = show_page_text(task_name, title_name, Seq::empty());
    assert(bare =~= p + t);
    assert(show_page_text(task_name, title_name, content) =~= p + content + t);
    assert(bare.take(p.len() as int) =~= p);
    assert(bare.skip(p.len() as int) =~= t);
    let page = show_page_text(task_name, title_name, content);
    let h: int = (HTML_HEAD@ + FORM_HEAD@
        + "<h1 class='col-sm-12' style='text-align:center'>"@).len() as int;
    let m: int = ("</h1>"@ + "<input type='hidden' name='task_name' value='"@).len() as int;
    let ti: int = title_name.len() as int;
    assert(page.subrange(h, h + ti) =~= title_name);
    assert(page.subrange(h + ti + m, h + ti + m + task_name.len()) =~= task_name);
}

/// The spreadsheet page names the task and then its title, whole and in
/// place: the page for any name and title is the page for an empty name and
/// title with the name inserted into the hidden `the_task_name` input and the
/// title into the hidden `the_task_title` input.
pub proof fn lemma_jump_page_names_task(task_name: Seq<char>, task_title: Seq<char>)
    ensures
        ({
            let bare = jump_page_text(Seq::empty(), Seq::empty());
            let a: int = (HTML_HEAD@ + REFRESH_BUTTON@
                + "<input type='hidden' id='the_task_name' value='"@).len() as int;
            let b: int = "'><input type='hidden' id='the_task_title' value='"@.len() as int;
            let n: int = task_name.len() as int;
            let page = jump_page_text(task_name, task_title);
            &&& page == bare.take(a) + task_name + bare.subrange(a, a + b) + task_title + bare.skip(
                a + b,
            )
            &&& page.subrange(a, a + n) == task_name
            &&& page.subrange(a + n + b, a + n + b + task_title.len()) == task_title
        }),
{
    let pa = HTML_HEAD@ + REFRESH_BUTTON@ + "<input type='hidden' id='the_task_name' value='"@;
    let pb = "'><input type='hidden' id='the_task_title' value='"@;
    let pc = "'>"@ + TABLE@ + HTML_TAIL@;
    let bare = jump_page_text(Seq::empty(), Seq::empty());
    let page = jump_page_text(task_name, task_title);
    let a: int = pa.len() as int;
    let b: int = pb.len() as int;
    let n: int = task_name.len() as int;
    assert(bare =~= pa + pb + pc);
    assert(page =~= pa + task_name + pb + task_title + pc);
    assert(bare.take(a) =~= pa);
    assert(bare.subrange(a, a + b) =~= pb);
    assert(bare.skip(a + b) =~= pc);
    assert(page.subrange(a, a + n) =~= task_name);
    assert(page.subrange(a + n + b, a + n + b + task_title.len()) =~= task_title);
}

/// The file that holds the form fields of task `task_name`.
pub open spec fn form_content_path_text(task_name: Seq<char>) -> Seq<char> {
    "../"@ + task_name + "/form_content.html"@
}

/// The path of the file holding the form fields of task `task_name`.
pub fn form_content_path(task_name: &str) -> (r: String)
    ensures
        r@ == form_content_path_text(task_name@),
{
    let mut r = String::from_str("../");
    r.append(task_name);
    r.append("/form_content.html");
    r
}

/// The page on which a form of task `task_name`, titled `title_name`, is
/// filled in; `content` holds the form's fields.
pub open spec fn show_page_text(
    task_name: Seq<char>,
    title_name: Seq<char>,
    content: Seq<char>,
) -> Seq<char> {
    HTML_HEAD@ + FORM_HEAD@ + "<h1 class='col-sm-12' style='text-align:center'>"@ + title_name
        + "</h1>"@ + "<input type='hidden' name='task_name' value='"@ + task_name + "'>"@
        + content + FORM_TAIL@ + SCRIPT@ + HTML_TAIL@
}

/// Assembles the form page of task `task_name`, titled `title_name`, around
/// the form fields `content`.
pub fn show_page(task_name: &str, title_name: &str, content: &str) -> (r: String)
    ensures
        r@ == show_page_text(task_name@, title_name@, content@),
{
    let mut r = String::from_str(HTML_HEAD);
    r.append(FORM_HEAD);
    r.append("<h1 class='col-sm-12' style='text-align:center'>");
    r.append(title_name);
    r.append("</h1>");
    r.append("<input type='hidden' name='task_name' value='");
    r.append(task_name);
    r.append("'>");
    r.append(content);
    r.append(FORM_TAIL);
    r.append(SCRIPT);
    r.append(HTML_TAIL);
    r
}

/// The spreadsheet page of task `task_name`, titled `task_title`.
pub open spec fn jump_page_text(task_name: Seq<char>, task_title: Seq<char>) -> Seq<char> {
    HTML_HEAD@ + REFRESH_BUTTON@ + "<input type='hidden' id='the_task_name' value='"@ + task_name
        + "'><input type='hidden' id='the_task_title' value='"@ + task_title + "'>"@ + TABLE@
        + HTML_TAIL@
}

/// Assembles the spreadsheet page of task `task_name`, titled `task_title`.
pub fn jump_page(task_name: &str, task_title: &str) -> (r: String)
    ensures
        r@ == jump_page_text(task_name@, task_title@),
{
    let mut r = String::from_str(HTML_HEAD);
    r.append(REFRESH_BUTTON);
    r.append("<input type='hidden' id='the_task_name' value='");
    r.append(task_name);
    r.append("'><input type='hidden' id='the_task_title' value='");
    r.append(task_title);
    r.append("'>");
    r.append(TABLE);
    r.append(HTML_TAIL);
    r
}

/// The entry of task `t` in the public task list; a visitor on the service's
/// own host also gets a link to the task's spreadsheet.
pub open spec fn index_item(t: TaskEntry, local: bool) -> Seq<char> {
    "<div style='height:100px'>"@ + (if local {
        "<span><a href='/jump/"@ + t.name@ + "/"@ + t.title@
            + "'>查看</a>&nbsp;&nbsp;&nbsp;&nbsp;</span>"@
    } else {
        Seq::<char>::empty()
    }) + "<a href='/show/"@ + t.name@ + "/"@ + t.title@ + "' style='font-size:80px'>"@
        + t.title@ + "</a>"@ + "</div>"@
}

/// The entries of `tasks` in the public task list, in order.
pub open spec fn index_items(tasks: Seq<TaskEntry>, local: bool) -> Seq<char>
    decreases tasks.len(),
{
    if tasks.len() == 0 {
        Seq::empty()
    } else {
        index_items(tasks.drop_last(), local) + index_item(tasks.last(), local)
    }
}

/// The public task list.
pub open spec fn index_page_text(tasks: Seq<TaskEntry>, is_not_local: bool) -> Seq<char> {
    HTML_HEAD@ + (if tasks.len() == 0 {
        NO_TASKS@
    } else {
        index_items(tasks, !is_not_local)
    }) + HTML_TAIL@
}

/// Assembles the public task list; `is_not_local` tells whether the visitor
/// comes from another host than the service's own.
pub fn index_page(tasks: &Vec<TaskEntry>, is_not_local: bool) -> (r: String)
    ensures
        r@ == index_page_text(tasks@, is_not_local),
{
    let local = !is_not_local;
    let mut content = String::new();
    for i in 0..tasks.len()
        invariant
            content@ == index_items(tasks@.take(i as int), local),
    {
        let t = &tasks[i];
        let mut item = String::from_str("<div style='height:100px'>");
        if local {
            item.append("<span><a href='/jump/");
            item.append(t.name.as_str());
            item.append("/");
            item.append(t.title.as_str());
            item.append("'>查看</a>&nbsp;&nbsp;&nbsp;&nbsp;</span>");
        }
        item.append("<a href='/show/");
        item.append(t.name.as_str());
        item.append("/");
        item.append(t.title.as_str());
        item.append("' style='font-size:80px'>");
        item.append(t.title.as_str());
        item.append("</a>");
        item.append("</div>");
        assert(tasks@.take(i + 1).drop_last() =~= tasks@.take(i as int));
        content.append(item.as_str());
    }
    assert(tasks@.take(tasks@.len() as int) =~= tasks@);
    let mut r = String::from_str(HTML_HEAD);
    if tasks.len() == 0 {
        r.append(NO_TASKS);
    } else {
        r.append(content.as_str());
    }
    r.append(HTML_TAIL);
    r
}

/// The entry of task `t` in the administrator's list: a link to its rows.
pub open spec fn admin_item(t: TaskEntry) -> Seq<char> {
    "<div style=\"height:100px\"><a href=\"/show_excel/"@ + t.name@ + "/"@ + t.title@
        + "\" style=\"font-size:80px\">"@ + t.title@ + "</a></div>"@
}

/// The entries of `tasks` in the administrator's list, in order.
pub open spec fn admin_items(tasks: Seq<TaskEntry>) -> Seq<char>
    decreases tasks.len(),
{
    if tasks.len() == 0 {
        Seq::empty()
    } else {
        admin_items(tasks.drop_last()) + admin_item(tasks.last())
    }
}

/// A task's entry in the public list links its form by name and then title,
/// whole and in place, and shows its title; a visitor on the service's own
/// host gets the same entry with the spreadsheet link added in front of the
/// form link.
pub proof fn lemma_index_item_links(t: TaskEntry)
    ensures
        ({
            let remote = index_item(t, false);
            let local = index_item(t, true);
            let p: int = "<div style='height:100px'>"@.len() as int;
            let q: int = p + "<a href='/show/"@.len();
            let n: int = t.name@.len() as int;
            let ti: int = t.title@.len() as int;
            let sl: int = "/"@.len() as int;
            let span = "<span><a href='/jump/"@ + t.name@ + "/"@ + t.title@
                + "'>查看</a>&nbsp;&nbsp;&nbsp;&nbsp;</span>"@;
            &&& remote.subrange(q, q + n) == t.name@
            &&& remote.subrange(q + n, q + n + sl) == "/"@
            &&& remote.subrange(q + n + sl, q + n + sl + ti) == t.title@
            &&& local == remote.take(p) + span + remote.skip(p)
        }),
{
    let head = "<div style='height:100px'>"@;
    let show = "<a href='/show/"@ + t.name@ + "/"@ + t.title@ + "' style='font-size:80px'>"@
        + t.title@ + "</a>"@ + "</div>"@;
    let span = "<span><a href='/jump/"@ + t.name@ + "/"@ + t.title@
        + "'>查看</a>&nbsp;&nbsp;&nbsp;&nbsp;</span>"@;
    let remote = index_item(t, false);
    assert(remote =~= head + show);
    assert(index_item(t, true) =~= head + span + show);
    assert(remote.take(head.len() as int) =~= head);
    assert(remote.skip(head.len() as int) =~= show);
    let q: int = (head.len() + "<a href='/show/"@.len()) as int;
    let n: int = t.name@.len() as int;
    let ti: int = t.title@.len() as int;
    let sl: int = "/"@.len() as int;
    assert(remote.subrange(q, q + n) =~= t.name@);
    assert(remote.subrange(q + n, q + n + sl) =~= "/"@);
    assert(remote.subrange(q + n + sl, q + n + sl + ti) =~= t.title@);
}

/// A task's link in the administrator's list points at its rows by name and
/// then title, whole and in place, and shows its title.
pub proof fn lemma_admin_item_links(t: TaskEntry)
    ensures
        ({
            let it = admin_item(t);
            let a: int = "<div style=\"height:100px\"><a href=\"/show_excel/"@.len() as int;
            let c: int = "\" style=\"font-size:80px\">"@.len() as int;
            let n: int = t.name@.len() as int;
            let ti: int = t.title@.len() as int;
            let sl: int = "/"@.len() as int;
            &&& it.subrange(a, a + n) == t.name@
            &&& it.subrange(a + n, a + n + sl) == "/"@
            &&& it.subrange(a + n + sl, a + n + sl + ti) == t.title@
            &&& it.subrange(a + n + sl + ti + c, a + n + sl + ti + c + ti) == t.title@
            &&& it.len() == a + n + sl + ti + c + ti + "</a></div>"@.len()
        }),
{
    let a: int = "<div style=\"height:100px\"><a href=\"/show_excel/"@.len() as int;
    let c: int = "\" style=\"font-size:80px\">"@.len() as int;
    let n: int = t.name@.len() as int;
    let ti: int = t.title@.len() as int;
    let sl: int = "/"@.len() as int;
    let it = admin_item(t);
    assert(it.subrange(a, a + n) =~= t.name@);
    assert(it.subrange(a + n, a + n + sl) =~= "/"@);
    assert(it.subrange(a + n + sl, a + n + sl + ti) =~= t.title@);
    assert(it.subrange(a + n + sl + ti + c, a + n + sl + ti + c + ti) =~= t.title@);
}

/// Every task gets its entry in the public list, for every visitor, in the
/// order of the tasks: one more task appends exactly its entry, whether or
/// not the visitor is on the service's own host.
pub proof fn lemma_index_lists_every_task(tasks: Seq<TaskEntry>, t: TaskEntry, local: bool)
    ensures
        index_items(tasks.push(t), local) == index_items(tasks, local) + index_item(t, local),
        index_items(tasks.push(t), local).len() == index_items(tasks, local).len() + index_item(
            t,
            local,
        ).len(),
        tasks.len() > 0 ==> index_page_text(tasks.push(t), !local) == HTML_HEAD@ + index_items(
            tasks,
            local,
        ) + index_item(t, local) + HTML_TAIL@,
{
    assert(tasks.push(t).drop_last() =~= tasks);
}

/// Every task gets its link in the administrator's list, in the order of the
/// tasks: one more task appends exactly its link.
pub proof fn lemma_admin_lists_every_task(tasks: Seq<TaskEntry>, t: TaskEntry)
    ensures
        admin_items(tasks.push(t)) == admin_items(tasks) + admin_item(t),
        admin_items(tasks.push(t)).len() == admin_items(tasks).len() + admin_item(t).len(),
        tasks.len() > 0 ==> admin_page_text(tasks.push(t)) == HTML_HEAD@ + admin_items(tasks)
            + admin_item(t) + HTML_TAIL@,
{
    assert(tasks.push(t).drop_last() =~= tasks);
}

/// Two task sequences that agree in every name and title.
pub open spec fn same_tasks(t1: Seq<TaskEntry>, t2: Seq<TaskEntry>) -> bool {
    &&& t1.len() == t2.len()
    &&& forall|i: int|
        0 <= i < t1.len() ==> (#[trigger] t1[i]).name@ == t2[i].name@ && t1[i].title@
            == t2[i].title@
}

proof fn lemma_items_depend_on_tasks(t1: Seq<TaskEntry>, t2: Seq<TaskEntry>, local: bool)
    requires
        same_tasks(t1, t2),
    ensures
        index_items(t1, local) == index_items(t2, local),
        admin_items(t1) == admin_items(t2),
    decreases t1.len(),
{
    if t1.len() > 0 {
        let (d1, d2) = (t1.drop_last(), t2.drop_last());
        assert forall|i: int| 0 <= i < d1.len() implies (#[trigger] d1[i]).name@ == d2[i].name@
            && d1[i].title@ == d2[i].title@ by {
            assert(d1[i] == t1[i] && d2[i] == t2[i]);
        };
        lemma_items_depend_on_tasks(d1, d2, local);
        assert(t1.last() == t1[t1.len() - 1]);
    }
}

/// The task lists show only the first two words of each line of the task
/// file: task files whose lines agree in their first two words (whatever else
/// the lines hold) give the same public list and the same administrator's list.
pub proof fn lemma_task_lists_read_two_words(
    lines1: Seq<Seq<char>>,
    lines2: Seq<Seq<char>>,
    tasks1: Seq<TaskEntry>,
    tasks2: Seq<TaskEntry>,
    is_not_local: bool,
)
    requires
        lines1.len() == lines2.len(),
        tasks1.len() == lines1.len(),
        tasks2.len() == lines2.len(),
        forall|i: int|
            0 <= i < lines1.len() ==> words(#[trigger] lines1[i]).len() >= 2 && words(
                lines2[i],
            ).len() >= 2 && words(lines1[i])[0] == words(lines2[i])[0] && words(lines1[i])[1]
                == words(lines2[i])[1],
        forall|i: int|
            0 <= i < tasks1.len() ==> ((#[trigger] tasks1[i]).name@, tasks1[i].title@)
                == line_task(lines1[i]),
        forall|i: int|
            0 <= i < tasks2.len() ==> ((#[trigger] tasks2[i]).name@, tasks2[i].title@)
                == line_task(lines2[i]),
    ensures
        index_page_text(tasks1, is_not_local) == index_page_text(tasks2, is_not_local),
        admin_page_text(tasks1) == admin_page_text(tasks2),
{
    assert forall|i: int| 0 <= i < tasks1.len() implies (#[trigger] tasks1[i]).name@
        == tasks2[i].name@ && tasks1[i].title@ == tasks2[i].title@ by {
        assert(lines1[i] == lines1[i]);
        assert(tasks2[i] == tasks2[i]);
    };
    lemma_items_depend_on_tasks(tasks1, tasks2, !is_not_local);
}

/// The administrator's list.
pub open spec fn admin_page_text(tasks: Seq<TaskEntry>) -> Seq<char> {
    HTML_HEAD@ + (if tasks.len() == 0 {
        NO_TASKS@
    } else {
        admin_items(tasks)
    }) + HTML_TAIL@
}

/// Assembles the administrator's list of tasks.
pub fn admin_page(tasks: &Vec<TaskEntry>) -> (r: String)
    ensures
        r@ == admin_page_text(tasks@),
{
    let mut content = String::new();
    for i in 0..tasks.len()
        invariant
            content@ == admin_items(tasks@.take(i as int)),
    {
        let t = &tasks[i];
        let mut item = String::from_str("<div style=\"height:100px\"><a href=\"/show_excel/");
        item.append(t.name.as_str());
        item.append("/");
        item.append(t.title.as_str());
        item.append("\" style=\"font-size:80px\">");
        item.append(t.title.as_str());
        item.append("</a></div>");
        assert(tasks@.take(i + 1).drop_last() =~= tasks@.take(i as int));
        content.append(item.as_str());
    }
    assert(tasks@.take(tasks@.len() as int) =~= tasks@);
    let mut r = String::from_str(HTML_HEAD);
    if tasks.len() == 0 {
        r.append(NO_TASKS);
    } else {
        r.append(content.as_str());
    }
    r.append(HTML_TAIL);
    r
}

} // verus!
