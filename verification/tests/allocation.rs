use memalloc::{typed_alloc, typed_dealloc, typed_realloc, Block};

#[test]
fn test_allocate() {
    let mut buffer: Block<i32> = typed_alloc(8);

    assert_eq!(buffer.size(), 8);

    buffer.write(0, 8);
    buffer.write(1, 4);
    buffer.write(3, 5);
    buffer.write(5, 3);
    buffer.write(7, 6);

    assert_eq!(*buffer.read(0), 8);
    assert_eq!(*buffer.read(1), 4);
    assert_eq!(*buffer.read(3), 5);
    assert_eq!(*buffer.read(5), 3);
    assert_eq!(*buffer.read(7), 6);

    typed_dealloc(buffer, 8);

    // Try a large buffer
    let mut buffer: Block<i32> = typed_alloc(1024 * 1024);
    assert_eq!(buffer.size(), 1024 * 1024);

    buffer.write(1024 * 1024 - 1, 12);
    assert_eq!(*buffer.read(1024 * 1024 - 1), 12);

    typed_dealloc(buffer, 1024 * 1024);
}

#[test]
fn test_reallocate() {
    let mut buffer: Block<i32> = typed_alloc(8);
    assert_eq!(buffer.size(), 8);

    buffer = typed_realloc(buffer, 8, 16);
    assert_eq!(buffer.size(), 16);

    // Put some data in the buffer
    buffer.write(0, 8);
    buffer.write(1, 4);
    buffer.write(5, 3);
    buffer.write(7, 6);

    // Allocate so in-place fails.
    let pressure: Block<u8> = typed_alloc(128);

    buffer = typed_realloc(buffer, 16, 32);
    assert_eq!(buffer.size(), 32);

    // Ensure the data is still there.
    assert_eq!(*buffer.read(0), 8);
    assert_eq!(*buffer.read(1), 4);
    assert_eq!(*buffer.read(5), 3);
    assert_eq!(*buffer.read(7), 6);

    typed_dealloc(pressure, 128);
    typed_dealloc(buffer, 32);
}

#[test]
fn grow_twice_keeps_writes() {
    let mut buffer: Block<u64> = typed_alloc(8);
    buffer.write(0, 10);
    buffer.write(1, 20);
    buffer.write(5, 30);
    buffer.write(7, 40);

    // An unrelated allocation, so that growing in place is unlikely.
    let pressure: Block<u64> = typed_alloc(128);

    buffer = typed_realloc(buffer, 8, 16);
    buffer = typed_realloc(buffer, 16, 32);

    assert_eq!(*buffer.read(0), 10);
    assert_eq!(*buffer.read(1), 20);
    assert_eq!(*buffer.read(5), 30);
    assert_eq!(*buffer.read(7), 40);

    typed_dealloc(pressure, 128);
    typed_dealloc(buffer, 32);
}

#[test]
fn shrink_keeps_prefix() {
    let mut buffer: Block<i32> = typed_alloc(8);
    buffer.write(0, 1);
    buffer.write(1, 2);
    buffer.write(2, 3);
    buffer.write(3, 4);

    buffer = typed_realloc(buffer, 8, 4);
    assert_eq!(buffer.size(), 4);

    assert_eq!(*buffer.read(0), 1);
    assert_eq!(*buffer.read(1), 2);
    assert_eq!(*buffer.read(2), 3);
    assert_eq!(*buffer.read(3), 4);

    typed_dealloc(buffer, 4);
}

#[test]
fn resize_to_same_size_changes_nothing() {
    let mut buffer: Block<i32> = typed_alloc(8);
    buffer.write(2, 77);
    buffer.write(6, -5);

    buffer = typed_realloc(buffer, 8, 8);
    assert_eq!(buffer.size(), 8);

    assert_eq!(*buffer.read(2), 77);
    assert_eq!(*buffer.read(6), -5);

    typed_dealloc(buffer, 8);
}

#[test]
fn writes_at_distinct_offsets_are_independent() {
    let mut buffer: Block<i32> = typed_alloc(4);
    buffer.write(0, 100);
    buffer.write(1, 200);
    buffer.write(2, 300);
    buffer.write(3, 400);

    // Overwriting one slot leaves the others as they were.
    buffer.write(1, 999);
    assert_eq!(*buffer.read(0), 100);
    assert_eq!(*buffer.read(1), 999);
    assert_eq!(*buffer.read(2), 300);
    assert_eq!(*buffer.read(3), 400);

    typed_dealloc(buffer, 4);
}

#[test]
fn smallest_allocation_works() {
    let mut buffer: Block<u8> = typed_alloc(1);
    assert_eq!(buffer.size(), 1);
    buffer.write(0, 42);
    assert_eq!(*buffer.read(0), 42);
    typed_dealloc(buffer, 1);
}

#[test]
fn block_from_buffer_keeps_contents() {
    let buf: Vec<Option<i32>> = vec![Some(5), None, Some(7)];
    let block = memalloc::ptr_from_vec(buf);
    assert_eq!(block.size(), 3);
    assert_eq!(*block.read(0), 5);
    assert_eq!(*block.read(2), 7);
}
