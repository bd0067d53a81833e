use ray_tracer::perlin::{PerlinPerms, POINT_COUNT};

fn identity() -> Vec<usize> {
    (0..POINT_COUNT).collect()
}

fn reversed() -> Vec<usize> {
    (0..POINT_COUNT).rev().collect()
}

#[test]
fn generated_tables_are_permutations() {
    let perms = PerlinPerms::new();
    for table in [&perms.perm_x, &perms.perm_y, &perms.perm_z] {
        let mut sorted = table.clone();
        sorted.sort();
        assert_eq!(sorted, identity());
    }
}

#[test]
fn from_tables_accepts_permutations() {
    let perms = PerlinPerms::from_tables(identity(), reversed(), identity());
    assert!(perms.is_some());
}

#[test]
fn from_tables_rejects_duplicates() {
    let mut bad = identity();
    bad[7] = 3;
    assert!(PerlinPerms::from_tables(bad, identity(), identity()).is_none());
}

#[test]
fn from_tables_rejects_wrong_length() {
    let short: Vec<usize> = (0..POINT_COUNT - 1).collect();
    assert!(PerlinPerms::from_tables(identity(), short, identity()).is_none());
}

#[test]
fn from_tables_rejects_out_of_range() {
    let mut bad = identity();
    bad[0] = POINT_COUNT;
    assert!(PerlinPerms::from_tables(identity(), identity(), bad).is_none());
}

#[test]
fn gradient_index_formula() {
    let perms = PerlinPerms::from_tables(identity(), reversed(), identity()).unwrap();
    let (i, j, k) = (300usize, 5usize, 1000usize);
    for (di, dj, dk) in [(0usize, 0usize, 0usize), (1, 0, 1), (1, 1, 1)] {
        let expected = ((i + di) & 255) ^ (255 - ((j + dj) & 255)) ^ ((k + dk) & 255);
        assert_eq!(perms.gradient_index(i, j, k, di, dj, dk), expected);
        assert!(perms.gradient_index(i, j, k, di, dj, dk) < POINT_COUNT);
    }
}

#[test]
fn gradient_index_same_tables_same_result() {
    let a = PerlinPerms::new();
    let b = PerlinPerms::from_tables(
        a.perm_x.clone(),
        a.perm_y.clone(),
        a.perm_z.clone(),
    )
    .unwrap();
    for (i, j, k) in [(0usize, 0usize, 0usize), (17, 250, 3), (4096, 1, 77)] {
        assert_eq!(
            a.gradient_index(i, j, k, 1, 0, 1),
            b.gradient_index(i, j, k, 1, 0, 1)
        );
    }
}
