//! The command shell: a line editor at the prompt and a small tree of
//! directories kept in fixed-size tables, writing its answers to the screen.
use vstd::prelude::*;
use vstd::slice::slice_subrange;
use vstd::string::StringSliceAdditionalSpecFns;
use crate::vga_buf::{deleted_view, print_view, Screen};

verus! {

/// Bytes kept of a command name.
pub const COMMAND_SIZE: usize = 10;

/// Bytes kept of a command's argument.
pub const ARGV_SIZE: usize = 70;

/// Bytes of a command line.
pub const LINE_SIZE: usize = 80;

/// The space byte, which ends a command name.
pub const SPACE: u8 = 32;

/// Length of the command name that starts at `k`: the bytes up to the first
/// space, at most up to byte `COMMAND_SIZE`.
pub open spec fn command_len_from(line: Seq<u8>, k: nat) -> nat
    decreases COMMAND_SIZE - k,
{
    if k >= COMMAND_SIZE || line[k as int] == SPACE {
        k
    } else {
        command_len_from(line, k + 1)
    }
}

/// Length of the command name of a line.
pub open spec fn command_len(line: Seq<u8>) -> nat {
    command_len_from(line, 0)
}

/// `n` bytes of `s` from `start` on, padded with zero bytes to `size`.
pub open spec fn padded(s: Seq<u8>, start: int, n: int, size: nat) -> Seq<u8> {
    Seq::new(size, |k: int| if k < n { s[start + k] } else { 0u8 })
}

/// Number of argument bytes kept from a line of `buf_len` bytes whose command
/// name is `n` bytes long.
pub open spec fn argument_len(n: int, buf_len: int) -> int {
    if buf_len <= n + 1 {
        0
    } else if buf_len - n - 1 > ARGV_SIZE {
        ARGV_SIZE as int
    } else {
        buf_len - n - 1
    }
}

proof fn lemma_command_len(line: Seq<u8>, k: nat, i: nat)
    requires
        k <= i <= COMMAND_SIZE,
        line.len() == LINE_SIZE,
        forall|m: int| k <= m < i ==> line[m] != SPACE,
        i == COMMAND_SIZE || line[i as int] == SPACE,
    ensures
        command_len_from(line, k) == i,
    decreases i - k,
{
    if k < i {
        lemma_command_len(line, k + 1, i);
    }
}

/// Splits a command line of `buf_len` bytes into the command name (the bytes
/// before the first space, at most `COMMAND_SIZE` of them) and the argument
/// (what follows the byte after the name, up to `buf_len`, at most
/// `ARGV_SIZE` bytes of it), each padded with zero bytes.
pub fn mu_split(arr: [u8; LINE_SIZE], buf_len: usize) -> (r: ([u8; COMMAND_SIZE], [u8; ARGV_SIZE]))
    requires
        buf_len <= LINE_SIZE,
    ensures
        r.0@ == padded(arr@, 0, command_len(arr@) as int, COMMAND_SIZE as nat),
        r.1@ == padded(
            arr@,
            command_len(arr@) + 1 as int,
            argument_len(command_len(arr@) as int, buf_len as int),
            ARGV_SIZE as nat,
        ),
{
    let mut cmd: [u8; COMMAND_SIZE] = [0u8; COMMAND_SIZE];
    let mut argument: [u8; ARGV_SIZE] = [0u8; ARGV_SIZE];
    let mut i: usize = 0;
    while arr[i] != SPACE && i < COMMAND_SIZE
        invariant
            i <= COMMAND_SIZE,
            forall|m: int| 0 <= m < i ==> arr@[m] != SPACE,
            forall|m: int| 0 <= m < COMMAND_SIZE ==> #[trigger] cmd@[m] == if m < i { arr@[m] } else { 0u8 },
        decreases COMMAND_SIZE - i,
    {
        cmd[i] = arr[i];
        i += 1;
    }
    proof {
        lemma_command_len(arr@, 0, i as nat);
        assert(cmd@ =~= padded(arr@, 0, i as int, COMMAND_SIZE as nat));
    }
    if i == buf_len {
        assert(argument@ =~= padded(arr@, i + 1, 0, ARGV_SIZE as nat));
        return (cmd, argument);
    }
    i += 1;
    let start: usize = i;
    let mut j: usize = 0;
    while i < buf_len && j < ARGV_SIZE
        invariant
            start <= i,
            i <= buf_len || (i == start && buf_len < start),
            j == i - start,
            j <= ARGV_SIZE,
            start == command_len(arr@) + 1,
            buf_len <= LINE_SIZE,
            forall|m: int| 0 <= m < ARGV_SIZE ==> #[trigger] argument@[m] == if m < j { arr@[start + m] } else { 0u8 },
        decreases buf_len - i,
    {
        argument[j] = arr[i];
        i += 1;
        j += 1;
    }
    assert(argument@ =~= padded(
        arr@,
        start as int,
        argument_len(start - 1, buf_len as int),
        ARGV_SIZE as nat,
    ));
    (cmd, argument)
}

/// Whether `str_for_compare` is a prefix of `arr`: it is no longer than
/// `arr`, and each of its bytes equals the byte of `arr` at the same place.
pub fn compare_str_with_arr(str_for_compare: &str, arr: [u8; COMMAND_SIZE]) -> (r: bool)
    ensures
        r == (str_for_compare.spec_bytes().len() <= COMMAND_SIZE && forall|k: int|
            0 <= k < str_for_compare.spec_bytes().len() ==> str_for_compare.spec_bytes()[k] == arr@[k]),
{
    let bytes = str_for_compare.as_bytes();
    if bytes.len() > COMMAND_SIZE {
        return false;
    }
    let mut are_the_same = true;
    let mut i: usize = 0;
    while i < bytes.len()
        invariant
            bytes@ == str_for_compare.spec_bytes(),
            i <= bytes@.len(),
            bytes@.len() <= COMMAND_SIZE,
            are_the_same == (forall|k: int| 0 <= k < i ==> bytes@[k] == arr@[k]),
        decreases bytes@.len() - i,
    {
        if bytes[i] != arr[i] {
            are_the_same = false;
        }
        i += 1;
    }
    are_the_same
}

/// The prompt written at the start of each command line.
pub const FORMATING_STRING: &'static str = " $ ";

/// Columns taken by the prompt, which backspace does not erase.
pub const FORMATING_STRING_LENGTH: u32 = 3;

/// Children a directory can have.
pub const MAX_COUNT_CHILDREN_DIRECTORIES: usize = 20;

/// Directories the table can hold, removed ones included.
pub const MAX_COUNT_DIRECTORIES: usize = 100;

/// Index marking a removed directory.
pub const DELETED_INDEX_DIRECTORY: usize = 101;

/// Bytes of a directory name.
pub const MAX_SIZE_DIRECTORY_NAME: usize = 10;

/// The byte the keyboard gives for backspace.
pub const BACKSPACE: u8 = 8;

/// The byte `.`, which names the parent directory.
pub const DOT: u8 = 46;

/// The newline byte, which ends a command line.
pub const NEWLINE: u8 = 10;

/// An entry of the directory table.
#[derive(Clone, Copy)]
pub struct Directory {
    /// Its own place in the table, or `DELETED_INDEX_DIRECTORY` once removed.
    pub index: usize,
    /// Its name, padded with zero bytes.
    pub name: [u8; MAX_SIZE_DIRECTORY_NAME],
    pub parent_index: usize,
    pub child_count: usize,
    pub child_indexes: [usize; MAX_COUNT_CHILDREN_DIRECTORIES],
}

/// The bytes of `name` without its leading and trailing zero bytes.
pub open spec fn trimmed(name: Seq<u8>) -> Seq<u8>
    decreases name.len(),
{
    if name.len() == 0 {
        name
    } else if name[0] == 0 {
        trimmed(name.drop_first())
    } else if name.last() == 0 {
        trimmed(name.drop_last())
    } else {
        name
    }
}

/// The bytes that echo a typed key: the key itself below 0x80, else the
/// two-byte UTF-8 form of the character with that code.
pub open spec fn echo_bytes(key: u8) -> Seq<u8> {
    if key < 0x80 {
        seq![key]
    } else {
        seq![(0xC0 | (key >> 6)) as u8, (0x80 | (key & 0x3F)) as u8]
    }
}

/// Writes `name` without its leading and trailing zero bytes.
fn print_trimmed(screen: &mut Screen, name: &[u8])
    requires
        old(screen).wf(),
    ensures
        final(screen).wf(),
        final(screen)@ == print_view(old(screen)@, trimmed(name@)),
{
    let mut start: usize = 0;
    let mut end: usize = name.len();
    assert(name@.subrange(0, name@.len() as int) =~= name@);
    while start < end && (name[start] == 0 || name[end - 1] == 0)
        invariant
            start <= end <= name@.len(),
            trimmed(name@.subrange(start as int, end as int)) == trimmed(name@),
        decreases end - start,
    {
        let ghost part = name@.subrange(start as int, end as int);
        if name[start] == 0 {
            assert(part.drop_first() =~= name@.subrange(start + 1, end as int));
            start += 1;
        } else {
            assert(part.drop_last() =~= name@.subrange(start as int, end - 1));
            end -= 1;
        }
    }
    let part = slice_subrange(name, start, end);
    assert(trimmed(part@) == part@);
    screen.print_bytes(part);
}

/// Writes the echo of a typed key.
fn echo_key(screen: &mut Screen, key: u8)
    requires
        old(screen).wf(),
    ensures
        final(screen).wf(),
        final(screen)@ == print_view(old(screen)@, echo_bytes(key)),
{
    if key < 0x80 {
        let bytes = [key];
        assert(bytes@ =~= echo_bytes(key));
        screen.print_bytes(&bytes);
    } else {
        let bytes = [0xC0 | (key >> 6), 0x80 | (key & 0x3F)];
        assert(bytes@ =~= echo_bytes(key));
        screen.print_bytes(&bytes);
    }
}

/// Writes the prompt.
pub fn init_shell(screen: &mut Screen)
    requires
        old(screen).wf(),
    ensures
        final(screen).wf(),
        final(screen)@ == print_view(old(screen)@, FORMATING_STRING.spec_bytes()),
{
    good_formatting(screen);
}

fn good_formatting(screen: &mut Screen)
    requires
        old(screen).wf(),
    ensures
        final(screen).wf(),
        final(screen)@ == print_view(old(screen)@, FORMATING_STRING.spec_bytes()),
{
    screen.print(FORMATING_STRING);
}

/// The shell's state: the command line being typed and the directory table.
pub struct Shell {
    buf: [u8; LINE_SIZE],
    buf_len: usize,
    directories: [Directory; MAX_COUNT_DIRECTORIES],
    directory_count: usize,
    current_directory: usize,
}

/// A removed directory.
pub open spec fn deleted_directory(d: Directory) -> bool {
    d.index == DELETED_INDEX_DIRECTORY
}

impl Shell {
    /// The line being typed fits its buffer, the table holds the root and
    /// at most its capacity, and the current directory is one of its entries.
    pub closed spec fn wf(&self) -> bool {
        &&& self.buf_len <= LINE_SIZE
        &&& 1 <= self.directory_count <= MAX_COUNT_DIRECTORIES
        &&& self.current_directory < self.directory_count
    }

    /// The bytes typed on the current command line.
    pub closed spec fn line(&self) -> Seq<u8> {
        self.buf@.subrange(0, self.buf_len as int)
    }

    /// A shell at the root directory, with an empty command line.
    pub fn new() -> (r: Shell)
        ensures
            r.wf(),
            r.line() == Seq::<u8>::empty(),
    {
        let root = Directory {
            index: 0,
            name: [114, 111, 111, 116, 0, 0, 0, 0, 0, 0],
            parent_index: 0,
            child_count: 0,
            child_indexes: [DELETED_INDEX_DIRECTORY; MAX_COUNT_CHILDREN_DIRECTORIES],
        };
        let mut directories = [Directory {
            index: 0,
            name: [SPACE; MAX_SIZE_DIRECTORY_NAME],
            parent_index: 0,
            child_count: 0,
            child_indexes: [DELETED_INDEX_DIRECTORY; MAX_COUNT_CHILDREN_DIRECTORIES],
        }; MAX_COUNT_DIRECTORIES];
        directories[0] = root;
        let shell = Shell {
            buf: [0u8; LINE_SIZE],
            buf_len: 0,
            directories,
            directory_count: 1,
            current_directory: 0,
        };
        assert(shell.line() =~= Seq::<u8>::empty());
        shell
    }

    /// Handles a typed key. Newline runs the command line and starts a new
    /// one after a fresh prompt; backspace erases the last typed byte, never
    /// the prompt; any other key is echoed and added to the line, unless the
    /// line is full, in which case it is dropped.
    pub fn on_key_pressed(&mut self, key: u8, screen: &mut Screen)
        requires
            old(self).wf(),
            old(screen).wf(),
        ensures
            final(self).wf(),
            final(screen).wf(),
            key == NEWLINE ==> final(self).line() == Seq::<u8>::empty(),
            key == BACKSPACE ==> final(self).line() == (if old(self).line().len() > 0 {
                old(self).line().drop_last()
            } else {
                old(self).line()
            }) && final(screen)@ == deleted_view(old(screen)@, FORMATING_STRING_LENGTH as int),
            key != NEWLINE && key != BACKSPACE && old(self).line().len() < LINE_SIZE ==> {
                &&& final(self).line() == old(self).line().push(key)
                &&& final(screen)@ == print_view(old(screen)@, echo_bytes(key))
            },
            key != NEWLINE && key != BACKSPACE && old(self).line().len() == LINE_SIZE ==> {
                &&& final(self).line() == old(self).line()
                &&& final(screen)@ == old(screen)@
            },
    {
        if key == NEWLINE {
            let argv = mu_split(self.buf, self.buf_len);
            self.execute_command(argv, screen);
            self.buf_len = 0;
            screen.print("\n");
            good_formatting(screen);
            assert(self.line() =~= Seq::<u8>::empty());
        } else if key == BACKSPACE {
            screen.delete_last_symbol(FORMATING_STRING_LENGTH);
            let ghost before = self.line();
            if self.buf_len > 0 {
                self.buf_len -= 1;
            }
            if self.buf_len < LINE_SIZE {
                self.buf[self.buf_len] = 0;
            }
            assert(self.line() =~= (if before.len() > 0 { before.drop_last() } else { before }));
        } else if self.buf_len < LINE_SIZE {
            let ghost before = self.line();
            self.buf[self.buf_len] = key;
            self.buf_len += 1;
            echo_key(screen, key);
            assert(self.line() =~= before.push(key));
        }
    }

    fn execute_command(&mut self, argv: ([u8; COMMAND_SIZE], [u8; ARGV_SIZE]), screen: &mut Screen)
        requires
            old(self).wf(),
            old(screen).wf(),
        ensures
            final(self).wf(),
            final(screen).wf(),
            final(self).line() == old(self).line(),
    {
        if compare_str_with_arr("cur_dir", argv.0) {
            self.current_directory_command(self.current_directory, screen);
        } else if compare_str_with_arr("make_dir", argv.0) {
            self.create_folder_command(argv.1, screen);
        } else if compare_str_with_arr("clear", argv.0) {
            screen.clear();
        } else if compare_str_with_arr("change_dir", argv.0) {
            self.change_directory_command(argv.1, screen);
        } else if compare_str_with_arr("dir_tree", argv.0) {
            self.directory_tree_command(self.current_directory, 0, screen);
        } else if compare_str_with_arr("remove_dir", argv.0) {
            self.delete_directory_command(argv.1, screen);
        } else {
            screen.print("\n");
            screen.print("[Error] Command \"");
            print_trimmed(screen, &argv.0);
            screen.print("\" not found!");
        }
    }

    /// Writes the path of directory `index`: a new line, then `/name` for
    /// each directory from the root down to it.
    fn current_directory_command(&self, index: usize, screen: &mut Screen)
        requires
            old(screen).wf(),
            index < MAX_COUNT_DIRECTORIES,
        ensures
            final(screen).wf(),
        decreases index,
    {
        let dir = self.directories[index];
        if index > 0 && dir.parent_index < index {
            self.current_directory_command(dir.parent_index, screen);
        } else {
            screen.print("\n");
        }
        screen.print("/");
        print_trimmed(screen, &dir.name);
    }

    /// Adds a child named by `argv` to the current directory.
    fn create_folder_command(&mut self, argv: [u8; ARGV_SIZE], screen: &mut Screen)
        requires
            old(self).wf(),
            old(screen).wf(),
        ensures
            final(self).wf(),
            final(screen).wf(),
            final(self).buf == old(self).buf,
            final(self).buf_len == old(self).buf_len,
    {
        let mut name_size: usize = 0;
        while name_size < ARGV_SIZE && argv[name_size] != 0
            invariant
                name_size <= ARGV_SIZE,
                self.wf(),
                screen.wf(),
            decreases ARGV_SIZE - name_size,
        {
            name_size += 1;
        }
        if name_size > MAX_SIZE_DIRECTORY_NAME {
            screen.print("\n[Error] The maximum size of the directory name is 10 characters");
            return;
        }
        let current = self.current_directory;
        let count = self.directory_count;
        let mut parent = self.directories[current];
        if count >= MAX_COUNT_DIRECTORIES || parent.child_count >= MAX_COUNT_CHILDREN_DIRECTORIES {
            screen.print("\n[Error] There is no room for another directory");
            return;
        }
        let mut name = [0u8; MAX_SIZE_DIRECTORY_NAME];
        let mut i: usize = 0;
        while i < MAX_SIZE_DIRECTORY_NAME
            invariant
                i <= MAX_SIZE_DIRECTORY_NAME,
                self.wf(),
                screen.wf(),
                count < MAX_COUNT_DIRECTORIES,
                current < self.directory_count,
                count == self.directory_count,
                parent.child_count < MAX_COUNT_CHILDREN_DIRECTORIES,
                self.buf == old(self).buf,
                self.buf_len == old(self).buf_len,
            decreases MAX_SIZE_DIRECTORY_NAME - i,
        {
            name[i] = argv[i];
            i += 1;
        }
        let directory = Directory {
            index: count,
            name,
            parent_index: current,
            child_count: 0,
            child_indexes: [0; MAX_COUNT_CHILDREN_DIRECTORIES],
        };
        self.directories[count] = directory;
        let slot = parent.child_count;
        parent.child_indexes[slot] = count;
        parent.child_count = slot + 1;
        self.directories[current] = parent;
        self.directory_count = count + 1;
        screen.print("\n[Ok] Directory \"");
        print_trimmed(screen, &name);
        screen.print("\" created succsessfully!");
    }

    /// Moves to the parent directory for an argument starting with `.`,
    /// else to the first child whose name starts with the argument.
    fn change_directory_command(&mut self, argv: [u8; ARGV_SIZE], screen: &mut Screen)
        requires
            old(self).wf(),
            old(screen).wf(),
        ensures
            final(self).wf(),
            final(screen).wf(),
            final(self).buf == old(self).buf,
            final(self).buf_len == old(self).buf_len,
    {
        let cur_dir = self.directories[self.current_directory];
        if argv[0] == DOT {
            if cur_dir.parent_index < self.directory_count {
                self.current_directory = cur_dir.parent_index;
            }
            return;
        }
        let children = if cur_dir.child_count < MAX_COUNT_CHILDREN_DIRECTORIES {
            cur_dir.child_count
        } else {
            MAX_COUNT_CHILDREN_DIRECTORIES
        };
        let mut k: usize = 0;
        while k < children
            invariant
                self.wf(),
                children <= MAX_COUNT_CHILDREN_DIRECTORIES,
                screen.wf(),
                self.buf == old(self).buf,
                self.buf_len == old(self).buf_len,
            decreases children - k,
        {
            let dir_index = cur_dir.child_indexes[k];
            if dir_index < self.directory_count {
                let name = self.directories[dir_index].name;
                let mut is_same = true;
                let mut i: usize = 0;
                while i < ARGV_SIZE && argv[i] != 0 && is_same
                    invariant
                        i <= MAX_SIZE_DIRECTORY_NAME,
                        self.wf(),
                        screen.wf(),
                        dir_index < self.directory_count,
                        self.buf == old(self).buf,
                        self.buf_len == old(self).buf_len,
                    decreases ARGV_SIZE - i,
                {
                    if i == MAX_SIZE_DIRECTORY_NAME {
                        screen.print("[Error] The maximum size of the directory name is 10 characters");
                        return;
                    }
                    if name[i] != argv[i] {
                        is_same = false;
                    }
                    i += 1;
                }
                if is_same {
                    self.current_directory = dir_index;
                    return;
                }
            }
            k += 1;
        }
        screen.print("\nFolder \"");
        print_trimmed(screen, &argv);
        screen.print("\" is not exist!");
    }

    /// Writes the tree below directory `index`, each child on a new line as
    /// `/name`, indented by four spaces per level.
    fn directory_tree_command(&self, index: usize, tab_count: usize, screen: &mut Screen)
        requires
            old(screen).wf(),
            index < MAX_COUNT_DIRECTORIES,
            tab_count <= index,
        ensures
            final(screen).wf(),
        decreases MAX_COUNT_DIRECTORIES - index,
    {
        screen.print("\n");
        let dir = self.directories[index];
        let children = if dir.child_count < MAX_COUNT_CHILDREN_DIRECTORIES {
            dir.child_count
        } else {
            MAX_COUNT_CHILDREN_DIRECTORIES
        };
        let mut k: usize = 0;
        while k < children
            invariant
                children <= MAX_COUNT_CHILDREN_DIRECTORIES,
                index < MAX_COUNT_DIRECTORIES,
                tab_count <= index,
                screen.wf(),
            decreases children - k,
        {
            let child = dir.child_indexes[k];
            if index < child && child < MAX_COUNT_DIRECTORIES {
                let mut t: usize = 0;
                while t < tab_count
                    invariant
                        screen.wf(),
                        index < child < MAX_COUNT_DIRECTORIES,
                        tab_count <= index,
                        k < children,
                        children <= MAX_COUNT_CHILDREN_DIRECTORIES,
                    decreases tab_count - t,
                {
                    screen.print("    ");
                    t += 1;
                }
                screen.print("/");
                print_trimmed(screen, &self.directories[child].name);
                self.directory_tree_command(child, tab_count + 1, screen);
            }
            k += 1;
        }
    }

    /// Removes the child of the current directory whose name equals
    /// `dir_name`, provided it has no children itself; the last child takes
    /// its place in the list.
    fn delete_directory_command(&mut self, dir_name: [u8; ARGV_SIZE], screen: &mut Screen)
        requires
            old(self).wf(),
            old(screen).wf(),
        ensures
            final(self).wf(),
            final(screen).wf(),
            final(self).buf == old(self).buf,
            final(self).buf_len == old(self).buf_len,
    {
        let current = self.current_directory;
        let mut cur_dir = self.directories[current];
        let children = if cur_dir.child_count < MAX_COUNT_CHILDREN_DIRECTORIES {
            cur_dir.child_count
        } else {
            MAX_COUNT_CHILDREN_DIRECTORIES
        };
        let mut k: usize = 0;
        while k < children
            invariant
                self.wf(),
                current == self.current_directory,
                children <= MAX_COUNT_CHILDREN_DIRECTORIES,
                screen.wf(),
                self.buf == old(self).buf,
                self.buf_len == old(self).buf_len,
            decreases children - k,
        {
            let child = cur_dir.child_indexes[k];
            if child < self.directory_count {
                let dir_to_check = self.directories[child];
                let mut is_same = true;
                let mut j: usize = 0;
                while j < MAX_SIZE_DIRECTORY_NAME
                    invariant
                        j <= MAX_SIZE_DIRECTORY_NAME,
                        self.wf(),
                        screen.wf(),
                        current == self.current_directory,
                        child < self.directory_count,
                        k < children,
                        children <= MAX_COUNT_CHILDREN_DIRECTORIES,
                        self.buf == old(self).buf,
                        self.buf_len == old(self).buf_len,
                    decreases MAX_SIZE_DIRECTORY_NAME - j,
                {
                    if dir_to_check.name[j] != dir_name[j] {
                        is_same = false;
                    }
                    j += 1;
                }
                if is_same {
                    if dir_to_check.child_count > 0 {
                        screen.print("[Error] Count parents must be 0");
                        return;
                    }
                    let last = children - 1;
                    cur_dir.child_indexes[k] = cur_dir.child_indexes[last];
                    cur_dir.child_indexes[last] = DELETED_INDEX_DIRECTORY;
                    cur_dir.child_count = last;
                    self.directories[current] = cur_dir;
                    self.directories[child] = Directory {
                        index: DELETED_INDEX_DIRECTORY,
                        name: [SPACE; MAX_SIZE_DIRECTORY_NAME],
                        parent_index: DELETED_INDEX_DIRECTORY,
                        child_count: DELETED_INDEX_DIRECTORY,
                        child_indexes: [DELETED_INDEX_DIRECTORY; MAX_COUNT_CHILDREN_DIRECTORIES],
                    };
                    return;
                }
            }
            k += 1;
        }
    }
}

} // verus!
