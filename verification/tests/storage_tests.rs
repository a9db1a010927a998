use rustume::schema::{Basics, Experience, ResumeData, Section};
use rustume::storage::{MemoryStorage, StorageError};

fn sample_resume(name: &str) -> ResumeData {
    let mut resume = ResumeData::default();
    resume.basics = Basics::new(name)
        .with_headline("Software Engineer")
        .with_email(&format!("{}@example.com", name.to_lowercase().replace(' ', ".")));

    resume.sections.experience = Section::new("experience", "Experience");
    resume.sections.experience.add_item(
        Experience::new("Test Company", "Developer")
            .with_date("2020 - Present")
            .with_summary("Building great software."),
    );

    resume
}

fn sample_resume_indexed(index: usize) -> ResumeData {
    let name = format!("User {}", index);
    sample_resume(&name)
}

#[test]
fn test_memory_storage_save_and_get() {
    let mut storage = MemoryStorage::new();
    let resume = sample_resume("John Doe");

    storage.save("test-id", resume).unwrap();

    let loaded = storage.get("test-id").unwrap();
    assert_eq!(loaded.basics.name, "John Doe");
    assert_eq!(loaded.basics.email, "john.doe@example.com");
}

#[test]
fn test_memory_storage_list() {
    let mut storage = MemoryStorage::new();

    storage.save("id-1", sample_resume("User 1")).unwrap();
    storage.save("id-2", sample_resume("User 2")).unwrap();
    storage.save("id-3", sample_resume("User 3")).unwrap();

    let list = storage.list().unwrap();
    assert_eq!(list.len(), 3);
    assert!(list.contains(&"id-1".to_string()));
    assert!(list.contains(&"id-2".to_string()));
    assert!(list.contains(&"id-3".to_string()));
}

#[test]
fn test_memory_storage_update() {
    let mut storage = MemoryStorage::new();

    storage.save("test-id", sample_resume("Initial")).unwrap();
    storage.save("test-id", sample_resume("Updated")).unwrap();

    let loaded = storage.get("test-id").unwrap();
    assert_eq!(loaded.basics.name, "Updated");
}

#[test]
fn test_memory_storage_delete() {
    let mut storage = MemoryStorage::new();

    storage.save("to-delete", sample_resume("Delete Me")).unwrap();
    assert!(storage.contains("to-delete").unwrap());

    storage.delete("to-delete").unwrap();
    assert!(!storage.contains("to-delete").unwrap());
}

#[test]
fn test_memory_storage_delete_not_found() {
    let mut storage = MemoryStorage::new();

    let result = storage.delete("nonexistent");
    assert!(matches!(result, Err(StorageError::NotFound(_))));
}

#[test]
fn test_memory_storage_get_not_found() {
    let storage = MemoryStorage::new();

    let result = storage.get("nonexistent");
    assert!(matches!(result, Err(StorageError::NotFound(_))));
}

#[test]
fn test_memory_storage_exists() {
    let mut storage = MemoryStorage::new();

    assert!(!storage.contains("test-id").unwrap());

    storage.save("test-id", sample_resume("Test")).unwrap();
    assert!(storage.contains("test-id").unwrap());
}

#[test]
fn test_memory_storage_multiple_operations() {
    let mut storage = MemoryStorage::new();

    for i in 0..5 {
        storage
            .save(&format!("resume-{}", i), sample_resume(&format!("User {}", i)))
            .unwrap();
    }

    for i in 0..5 {
        assert!(storage.contains(&format!("resume-{}", i)).unwrap());
    }

    storage.delete("resume-1").unwrap();
    storage.delete("resume-3").unwrap();

    assert!(!storage.contains("resume-1").unwrap());
    assert!(storage.contains("resume-2").unwrap());
    assert!(!storage.contains("resume-3").unwrap());

    let mut updated = sample_resume("Updated User 2");
    updated.sections.summary.content = "Updated summary".to_string();
    storage.save("resume-2", updated).unwrap();

    let loaded = storage.get("resume-2").unwrap();
    assert_eq!(loaded.sections.summary.content, "Updated summary");

    let list = storage.list().unwrap();
    assert_eq!(list.len(), 3);
}

#[test]
fn test_memory_storage_preserves_full_resume_data() {
    let mut storage = MemoryStorage::new();

    let mut resume = sample_resume("Full Test");
    resume.sections.summary.content = "This is a detailed summary.".to_string();
    resume.metadata.template = "rhyhorn".to_string();
    let kept = sample_resume("Full Test");

    storage.save("full-test", resume).unwrap();

    let loaded = storage.get("full-test").unwrap();

    assert_eq!(loaded.basics.name, kept.basics.name);
    assert_eq!(loaded.basics.headline, kept.basics.headline);
    assert_eq!(loaded.basics.email, kept.basics.email);
    assert_eq!(loaded.sections.summary.content, "This is a detailed summary.");
    assert_eq!(loaded.metadata.template, "rhyhorn");
    assert_eq!(loaded.sections.experience.items.len(), kept.sections.experience.items.len());
}

#[test]
fn test_rapid_sequential_save_operations() {
    let mut storage = MemoryStorage::new();

    for i in 0..100 {
        storage.save(&format!("id-{}", i), sample_resume_indexed(i)).unwrap();
    }

    let list = storage.list().unwrap();
    assert_eq!(list.len(), 100);

    for i in 0..100 {
        let loaded = storage.get(&format!("id-{}", i)).unwrap();
        assert_eq!(loaded.basics.name, format!("User {}", i));
    }
}

#[test]
fn test_interleaved_read_write() {
    let mut storage = MemoryStorage::new();

    for i in 0..10 {
        storage.save(&format!("resume-{}", i), sample_resume_indexed(i)).unwrap();
    }

    for i in 10..50 {
        storage.save(&format!("resume-{}", i), sample_resume_indexed(i)).unwrap();

        let read_idx = i % 10;
        let loaded = storage.get(&format!("resume-{}", read_idx)).unwrap();
        assert_eq!(loaded.basics.name, format!("User {}", read_idx));
    }

    let list = storage.list().unwrap();
    assert_eq!(list.len(), 50);
}

#[test]
fn test_rapid_update_same_key() {
    let mut storage = MemoryStorage::new();

    storage.save("shared-key", sample_resume_indexed(0)).unwrap();

    for i in 1..=100 {
        storage.save("shared-key", sample_resume_indexed(i)).unwrap();
    }

    let loaded = storage.get("shared-key").unwrap();
    assert_eq!(loaded.basics.name, "User 100");
}

#[test]
fn test_interleaved_save_delete() {
    let mut storage = MemoryStorage::new();

    for i in 0..50 {
        storage.save(&format!("item-{}", i), sample_resume_indexed(i)).unwrap();

        if i > 0 && i % 2 == 0 {
            storage.delete(&format!("item-{}", i - 1)).unwrap();
        }
    }

    let list = storage.list().unwrap();
    assert_eq!(list.len(), 26);
}
