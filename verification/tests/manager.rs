use std::cell::RefCell;
use std::collections::HashMap;

use arq_core::manager::TaskManager;
use arq_core::phase::Phase;
use arq_core::planning::plan::Plan;
use arq_core::research::document::ResearchDoc;
use arq_core::storage::{Storage, StorageError};
use arq_core::task::{Task, TaskSummary};

/// Storage that keeps everything in memory.
#[derive(Default)]
struct MemStorage {
    tasks: RefCell<HashMap<String, Task>>,
    order: RefCell<Vec<String>>,
    current: RefCell<Option<String>>,
    project_memory: RefCell<Option<String>>,
    task_memory: RefCell<HashMap<String, String>>,
}

impl Storage for MemStorage {
    fn save_task(&self, task: &Task) -> Result<(), StorageError> {
        if !self.tasks.borrow().contains_key(&task.id) {
            self.order.borrow_mut().push(task.id.clone());
        }
        self.tasks.borrow_mut().insert(task.id.clone(), task.clone());
        Ok(())
    }

    fn load_task(&self, id: &str) -> Result<Task, StorageError> {
        self.tasks
            .borrow()
            .get(id)
            .cloned()
            .ok_or_else(|| StorageError::TaskNotFound(id.to_string()))
    }

    fn list_tasks(&self) -> Result<Vec<TaskSummary>, StorageError> {
        let tasks = self.tasks.borrow();
        Ok(self
            .order
            .borrow()
            .iter()
            .filter_map(|id| tasks.get(id))
            .map(|t| t.to_summary())
            .collect())
    }

    fn delete_task(&self, id: &str) -> Result<(), StorageError> {
        self.tasks.borrow_mut().remove(id);
        self.order.borrow_mut().retain(|x| x != id);
        Ok(())
    }

    fn save_research_doc(&self, _task_id: &str, _doc: &ResearchDoc) -> Result<(), StorageError> {
        Ok(())
    }

    fn save_plan(&self, _task_id: &str, _plan: &Plan) -> Result<(), StorageError> {
        Ok(())
    }

    fn get_current_task_id(&self) -> Result<Option<String>, StorageError> {
        Ok(self.current.borrow().clone())
    }

    fn set_current_task_id(&self, id: Option<&str>) -> Result<(), StorageError> {
        *self.current.borrow_mut() = id.map(|s| s.to_string());
        Ok(())
    }

    fn load_project_memory(&self) -> Result<Option<String>, StorageError> {
        Ok(self.project_memory.borrow().clone())
    }

    fn save_project_memory(&self, memory: &str) -> Result<(), StorageError> {
        *self.project_memory.borrow_mut() = Some(memory.to_string());
        Ok(())
    }

    fn load_task_memory(&self, task_id: &str) -> Result<Option<String>, StorageError> {
        Ok(self.task_memory.borrow().get(task_id).cloned())
    }

    fn save_task_memory(&self, task_id: &str, memory: &str) -> Result<(), StorageError> {
        self.task_memory
            .borrow_mut()
            .insert(task_id.to_string(), memory.to_string());
        Ok(())
    }
}

fn create_test_manager() -> TaskManager<MemStorage> {
    TaskManager::new(MemStorage::default())
}

#[test]
fn test_create_task() {
    let mut manager = create_test_manager();

    let task = manager.create_task("Test task").unwrap();
    assert_eq!(task.prompt, "Test task");
    assert_eq!(task.phase, Phase::Research);

    // Should be set as current
    let current = manager.get_current_task().unwrap();
    assert!(current.is_some());
    assert_eq!(current.unwrap().id, task.id);
}

#[test]
fn test_list_tasks() {
    let mut manager = create_test_manager();

    manager.create_task("Task 1").unwrap();
    manager.create_task("Task 2").unwrap();

    let tasks = manager.list_tasks().unwrap();
    assert_eq!(tasks.len(), 2);
}

#[test]
fn test_delete_task() {
    let mut manager = create_test_manager();

    let task = manager.create_task("Task to delete").unwrap();
    manager.delete_task(&task.id).unwrap();

    assert!(manager.get_task(&task.id).is_err());
}

#[test]
fn test_set_research_doc() {
    let mut manager = create_test_manager();

    let task = manager.create_task("Test task").unwrap();
    let doc = ResearchDoc::new("Test task");

    let updated = manager.set_research_doc(&task.id, doc).unwrap();
    assert!(updated.research_doc.is_some());
    assert!(updated.can_advance());
}

#[test]
fn test_advance_phase() {
    let mut manager = create_test_manager();

    let task = manager.create_task("Test task").unwrap();

    // Can't advance without research doc
    assert!(manager.advance_phase(&task.id).is_err());

    // Add research doc
    let doc = ResearchDoc::new("Test task");
    manager.set_research_doc(&task.id, doc).unwrap();

    // Now can advance
    let new_phase = manager.advance_phase(&task.id).unwrap();
    assert_eq!(new_phase, Phase::Planning);
}

#[test]
fn manager_task_name_and_summary() {
    let mut manager = create_test_manager();
    let task = manager.create_task("Add Rate limiting to the API now please").unwrap();
    assert_eq!(task.name, "add-rate-limiting-to-the");
    assert_eq!(task.id.len(), 36);
    let summary = task.to_summary();
    assert_eq!(summary.id, task.id);
    assert_eq!(summary.phase, Phase::Research);
}

#[test]
fn manager_advance_needs_plan_in_planning() {
    let mut manager = create_test_manager();
    let task = manager.create_task("Plan me").unwrap();
    manager
        .set_research_doc(&task.id, ResearchDoc::new("Plan me"))
        .unwrap();
    assert_eq!(manager.advance_phase(&task.id).unwrap(), Phase::Planning);
    // No plan yet: planning cannot be left.
    let err = manager.advance_phase(&task.id).unwrap_err();
    assert!(err.to_display_string().contains("Cannot advance"));
    assert_eq!(manager.get_task(&task.id).unwrap().phase, Phase::Planning);
}

#[test]
fn manager_clear_and_switch_current() {
    let mut manager = create_test_manager();
    let a = manager.create_task("First").unwrap();
    let b = manager.create_task("Second").unwrap();
    assert_eq!(manager.get_current_task().unwrap().unwrap().id, b.id);
    manager.set_current_task(&a.id).unwrap();
    assert_eq!(manager.get_current_task().unwrap().unwrap().id, a.id);
    manager.clear_current_task().unwrap();
    assert!(manager.get_current_task().unwrap().is_none());
}
