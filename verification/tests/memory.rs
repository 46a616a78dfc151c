use ffi_utils::memory::{
    assert_pointer_not_null, destroy, destroy_c_char, destroy_raw_uuid, destroy_value, Heap,
};
use ffi_utils::string::string_to_c_char;

// Test structure for payload destructor testing
#[derive(Debug, PartialEq)]
struct TestStruct {
    value: i32,
    name: String,
}

#[test]
fn test_destroy_test_struct_valid_pointer() {
    // Create an allocation and take its handle
    let mut heap: Heap<TestStruct> = Heap::new();
    let raw_ptr = heap.alloc_value(TestStruct {
        value: 42,
        name: String::from("test"),
    });

    // This should not panic - the destructor should properly clean up
    destroy_value(&mut heap, raw_ptr);
    assert_eq!(heap.outstanding(), 0);
}

#[test]
fn test_destroy_c_void_valid_pointer() {
    // Test the generic type-erased destructor
    let mut heap: Heap<u32> = Heap::new();
    let raw_ptr = heap.alloc_value(123u32);

    // This should not panic
    destroy(&mut heap, raw_ptr);
    assert_eq!(heap.outstanding(), 0);
}

#[test]
fn test_destroy_raw_uuid_valid_pointer() {
    // Create a UUID-like sixteen-byte identifier
    let mut heap: Heap<u32> = Heap::new();
    let uuid = vec![1u8, 2, 3, 4, 5, 6, 7, 8, 9, 10, 11, 12, 13, 14, 15, 16];
    let raw_ptr = heap.alloc_uuid(uuid);

    // This should properly clean up the memory
    destroy_raw_uuid(&mut heap, raw_ptr);
    assert_eq!(heap.outstanding(), 0);
}

#[test]
fn test_destroy_c_char_valid_cstring() {
    // Create a text buffer and hand its ownership to a handle
    let mut heap: Heap<u32> = Heap::new();
    let c_string = string_to_c_char("Hello, FFI!");
    let raw_ptr = heap.alloc_text(c_string);

    // This should properly clean up the buffer
    destroy_c_char(&mut heap, raw_ptr);
    assert_eq!(heap.outstanding(), 0);
}

#[test]
fn test_destroy_c_char_empty_string() {
    // Test with empty string
    let mut heap: Heap<u32> = Heap::new();
    let c_string = string_to_c_char("");
    let raw_ptr = heap.alloc_text(c_string);

    destroy_c_char(&mut heap, raw_ptr);
    assert_eq!(heap.outstanding(), 0);
}

#[test]
fn test_destroy_c_char_unicode_string() {
    // Test with Unicode content
    let mut heap: Heap<u32> = Heap::new();
    let c_string = string_to_c_char("Hello 世界 🦀");
    let raw_ptr = heap.alloc_text(c_string);

    destroy_c_char(&mut heap, raw_ptr);
    assert_eq!(heap.outstanding(), 0);
}

#[test]
fn test_assert_pointer_not_null_valid() {
    let mut heap: Heap<i32> = Heap::new();
    let ptr = heap.alloc_value(42);

    // Should not panic
    assert_pointer_not_null(ptr);
    assert!(ptr != 0);

    // Clean up
    destroy_value(&mut heap, ptr);
}

#[test]
fn test_assert_pointer_not_null_multiple() {
    let mut heap: Heap<i32> = Heap::new();
    let ptr1 = heap.alloc_value(1);
    let ptr2 = heap.alloc_value(2);

    // Should not panic with multiple handles
    assert_pointer_not_null(ptr1);
    assert_pointer_not_null(ptr2);
    assert!(ptr1 != 0 && ptr2 != 0);

    // Clean up
    destroy_value(&mut heap, ptr1);
    destroy_value(&mut heap, ptr2);
}

// Test to verify the generic destructor has the release-function shape
#[test]
fn test_destructor_macro_generates_extern_c_function() {
    // This test verifies that the destructor can be called through a plain
    // function value. The fact that it compiles proves the signature is correct
    let test_fn: fn(&mut Heap<TestStruct>, usize) = destroy_value;

    let mut heap: Heap<TestStruct> = Heap::new();
    let ptr = heap.alloc_value(TestStruct {
        value: 100,
        name: String::from("macro test"),
    });

    test_fn(&mut heap, ptr);
    assert_eq!(heap.outstanding(), 0);
}

// Test memory safety: ensure we can create and destroy multiple objects
#[test]
fn test_multiple_allocations_and_destructions() {
    let mut heap: Heap<TestStruct> = Heap::new();
    for i in 0..100 {
        let ptr = heap.alloc_value(TestStruct {
            value: i,
            name: format!("Object {}", i),
        });
        destroy_value(&mut heap, ptr);
    }
    assert_eq!(heap.outstanding(), 0);
}

// Test with different primitive types
#[test]
fn test_destroy_various_types() {
    // Test with u64
    let mut heap_u64: Heap<u64> = Heap::new();
    let ptr_u64 = heap_u64.alloc_value(u64::MAX);
    destroy(&mut heap_u64, ptr_u64);

    // Test with f64
    let mut heap_f64: Heap<f64> = Heap::new();
    let ptr_f64 = heap_f64.alloc_value(3.14159f64);
    destroy(&mut heap_f64, ptr_f64);

    // Test with a larger value
    let mut heap_large: Heap<Vec<u8>> = Heap::new();
    let ptr_large = heap_large.alloc_value(vec![0u8; 1024]);
    destroy(&mut heap_large, ptr_large);
}

// Releasing the null handle is a no-op for every release primitive
#[test]
fn test_release_null_handle_no_op() {
    let mut heap: Heap<i32> = Heap::new();
    let kept = heap.alloc_value(7);

    destroy(&mut heap, 0);
    destroy_value(&mut heap, 0);
    destroy_c_char(&mut heap, 0);
    destroy_raw_uuid(&mut heap, 0);

    assert_eq!(heap.outstanding(), 1);
    assert!(heap.is_live(kept));
    assert_eq!(*heap.read_value(kept).unwrap(), 7);

    destroy_value(&mut heap, kept);
    assert_eq!(heap.outstanding(), 0);
}

// A released handle stays dead and later allocations never alias it
#[test]
fn test_handles_are_not_reused() {
    let mut heap: Heap<i32> = Heap::new();
    let a = heap.alloc_value(1);
    destroy_value(&mut heap, a);
    let b = heap.alloc_value(2);
    assert!(a != b);
    assert!(!heap.is_live(a));
    assert!(heap.is_live(b));
    destroy_value(&mut heap, b);
}
