use paya::task_list::{Task, TaskList};

#[test]
fn tasks_are_kept_in_order() {
    let mut list: TaskList<Box<dyn FnMut()>> = TaskList::new();
    assert_eq!(list.len(), 0);
    list.add_task(Task { name: "clear".to_owned(), task: Box::new(|| {}) });
    list.add_task(Task { name: "draw".to_owned(), task: Box::new(|| {}) });
    assert_eq!(list.len(), 2);
}
