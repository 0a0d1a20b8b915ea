use create_rust_app::content::prisma::{create, get_migration_number, MIGRATIONS_ROOT};
use create_rust_app::files::DirectoryEntry;
use create_rust_app::migration::{
    allocate_migration, count_subdirectories, pad_number, MigrationDirectory,
};

fn entry(name: &str, is_directory: bool) -> DirectoryEntry {
    DirectoryEntry { name: name.to_string(), is_directory }
}

fn padded(n: usize, width: usize) -> String {
    pad_number(n, width).into_iter().collect()
}

#[test]
fn three_directories_give_number_three() {
    let entries = vec![
        entry("00000000000000_init", true),
        entry("00000000000001_users", true),
        entry("00000000000002_posts", true),
    ];
    let migration = create("add_users", &entries);
    assert_eq!(migration.sequence_number, 3);
    assert_eq!(migration.slug, "add_users");
    assert_eq!(migration.directory_name(), "00000000000003_add_users");
}

#[test]
fn an_empty_root_gives_number_zero() {
    let migration = create("add_users", &Vec::new());
    assert_eq!(migration.sequence_number, 0);
    assert_eq!(migration.directory_name(), "00000000000000_add_users");
    assert_eq!(migration.up_content, "");
    assert_eq!(migration.down_content, "");
}

#[test]
fn only_directories_are_counted() {
    let entries = vec![
        entry("README.md", false),
        entry("00000000000000_init", true),
        entry(".gitkeep", false),
        entry("00000000000001_users", true),
    ];
    assert_eq!(get_migration_number(&entries), 2);
    assert_eq!(count_subdirectories(&entries), 2);
    assert_eq!(count_subdirectories(&Vec::new()), 0);
}

#[test]
fn numbers_rise_by_one_with_each_directory() {
    let mut entries: Vec<DirectoryEntry> = Vec::new();
    for expected in 0..12usize {
        let migration = create("step", &entries);
        assert_eq!(migration.sequence_number, expected);
        entries.push(entry(&migration.directory_name(), true));
    }
}

#[test]
fn the_slug_is_the_snake_case_of_the_name() {
    let migration = allocate_migration(7, "AddUserRoles", "CREATE;", "DROP;");
    assert_eq!(migration.slug, "add_user_roles");
    assert_eq!(migration.directory_name(), "00000000000007_add_user_roles");
    assert_eq!(migration.up_content, "CREATE;");
    assert_eq!(migration.down_content, "DROP;");
}

#[test]
fn numbers_are_padded_to_the_width() {
    assert_eq!(padded(0, 14), "00000000000000");
    assert_eq!(padded(42, 14), "00000000000042");
    assert_eq!(padded(99_999_999_999_999, 14), "99999999999999");
    assert_eq!(padded(100_000_000_000_000, 14), "100000000000000");
    assert_eq!(padded(0, 0), "0");
    assert_eq!(padded(7, 1), "7");
    assert_eq!(padded(1234, 2), "1234");
    assert_eq!(padded(usize::MAX, 3), usize::MAX.to_string());
}

#[test]
fn padding_agrees_with_formatting() {
    for n in [0usize, 1, 9, 10, 11, 99, 100, 12345, 99_999_999_999_999] {
        assert_eq!(padded(n, 14), format!("{:0>14}", n));
    }
}

#[test]
fn names_sort_as_their_numbers_do() {
    let numbers = [0usize, 1, 2, 9, 10, 11, 99, 100, 101, 999_999, 99_999_999_999_999];
    let names: Vec<String> = numbers
        .iter()
        .map(|n| {
            MigrationDirectory {
                sequence_number: *n,
                slug: if n % 2 == 0 { "zz".to_string() } else { "aa".to_string() },
                up_content: String::new(),
                down_content: String::new(),
            }
            .directory_name()
        })
        .collect();
    for pair in names.windows(2) {
        assert!(pair[0] < pair[1]);
    }
}

#[test]
fn the_directory_lies_below_the_root() {
    let migration = allocate_migration(3, "add_users", "", "");
    assert_eq!(
        migration.path(MIGRATIONS_ROOT),
        "backend/prisma/migrations/00000000000003_add_users"
    );
    assert_eq!(migration.path(""), "00000000000003_add_users");
}
