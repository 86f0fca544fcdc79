use jsrt::Handle;
use jsrt::JsValueType;
use jsrt::context::ContextData;
use jsrt::value::Function;
use jsrt::value::Value;

fn function(raw: usize) -> Function {
    Value::from_parts(Handle::from_raw(raw), JsValueType::Function, false)
        .into_function()
        .unwrap()
}

// In these tests the user-data payload is a vector of integers stored
// under one type key, mirroring a store keyed by type identity with at
// most one value per distinct type.
const VEC_I32_KEY: u64 = 11;

#[test]
fn user_data() {
    let mut data: ContextData<Vec<i32>> = ContextData::new();

    assert!(data.insert_user_data(VEC_I32_KEY, vec![10, 20]).is_none());
    assert_eq!(
        data.get_user_data(VEC_I32_KEY).unwrap().as_slice(),
        [10, 20]
    );

    assert_eq!(data.remove_user_data(VEC_I32_KEY), Some(vec![10, 20]));
    assert!(data.get_user_data(VEC_I32_KEY).is_none());
    assert!(data.remove_user_data(VEC_I32_KEY).is_none());
}

#[test]
fn user_data_insert_returns_previous_value() {
    let mut data: ContextData<Vec<i32>> = ContextData::new();
    assert_eq!(data.insert_user_data(VEC_I32_KEY, vec![1]), None);
    assert_eq!(data.insert_user_data(VEC_I32_KEY, vec![2, 3]), Some(vec![1]));
    assert_eq!(
        data.get_user_data(VEC_I32_KEY).unwrap().as_slice(),
        [2, 3]
    );
}

#[test]
fn user_data_keys_are_independent() {
    let mut data: ContextData<Vec<i32>> = ContextData::new();
    data.insert_user_data(1, vec![1]);
    data.insert_user_data(2, vec![2]);
    data.insert_user_data(3, vec![3]);
    assert_eq!(data.remove_user_data(2), Some(vec![2]));
    assert_eq!(data.get_user_data(1).unwrap().as_slice(), [1]);
    assert!(data.get_user_data(2).is_none());
    assert_eq!(data.get_user_data(3).unwrap().as_slice(), [3]);
}

#[test]
fn tasks_drain_in_enqueue_order() {
    let mut data: ContextData<u8> = ContextData::new();
    let first = function(0x10);
    let second = function(0x20);
    let third = function(0x30);

    data.enqueue_task(first);
    data.enqueue_task(second);
    data.enqueue_task(third);
    assert_eq!(data.pending_tasks(), 3);

    assert_eq!(data.take_next_task(), Some(first));
    assert_eq!(data.take_next_task(), Some(second));
    assert_eq!(data.take_next_task(), Some(third));
    assert_eq!(data.take_next_task(), None);
    assert_eq!(data.pending_tasks(), 0);
}

#[test]
fn tasks_enqueued_while_draining_are_drained_too() {
    // A chain of continuations: each task, when invoked, schedules the
    // next one.  One drain — take until empty, re-checking emptiness
    // after every invocation — must run the whole chain in order.
    let mut data: ContextData<u8> = ContextData::new();
    let chain = [function(0x1), function(0x2), function(0x3), function(0x4)];

    data.enqueue_task(chain[0]);

    let mut ran: Vec<Function> = Vec::new();
    while let Some(task) = data.take_next_task() {
        // Invoking the task: continuations of the promise chain schedule
        // their successor through the per-context hook.
        let position = chain.iter().position(|f| *f == task).unwrap();
        if position + 1 < chain.len() {
            data.enqueue_task(chain[position + 1]);
        }
        ran.push(task);
    }

    assert_eq!(ran, chain.to_vec());
    assert_eq!(data.pending_tasks(), 0);
}

#[test]
fn fresh_side_table_is_empty() {
    let data: ContextData<Vec<i32>> = ContextData::new();
    assert_eq!(data.pending_tasks(), 0);
    assert!(data.get_user_data(0).is_none());
}
