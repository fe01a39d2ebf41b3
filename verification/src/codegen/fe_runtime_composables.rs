//! Static Vue composables seeded into every app: URL list state, dialog and
//! drawer URL binding, and the websocket channel subscription.
use vstd::prelude::*;

verus! {

/// `composables/url.ts`: URL-backed query params and list state.
pub const URL_TS: &'static str = "// url — URL-state binding helpers. SPAs broke the web's URL contract;\n// these put view state back where it belongs (the URL) so refresh,\n// share-link, back/forward all behave like a respectable MPA. See\n// SPEC_FRONTEND_ROUTING.md (`useUrlListState`) and SPEC_FRONTEND.md\n// (list wire schema) for the contract this enforces.\n//\n// Two exports:\n//   useQueryParam<T>(name, opts?) — bind a single query param to a ref.\n//   useUrlListState(opts?)        — page/page_size/sort/filter bound to\n//                                   the canonical list-endpoint contract.\n//\n// History mode is configurable per-call: `push` adds a history entry\n// (default — back button reverses the change); `replace` swaps in\n// place (use for transient/auto-driven updates that shouldn't pollute\n// history).\n\nimport { computed, watch } from 'vue'\nimport type { ComputedRef, WritableComputedRef } from 'vue'\nimport { useRoute, useRouter } from 'vue-router'\nimport type { LocationQueryRaw } from 'vue-router'\n\nexport type QueryHistoryMode = 'push' | 'replace'\n\nexport interface UseQueryParamOptions<T> {\n  default?: T\n  history?: QueryHistoryMode\n}\n\nexport interface UrlListState {\n  page: WritableComputedRef<number>\n  pageSize: WritableComputedRef<number>\n  sort: WritableComputedRef<string>\n  filter: WritableComputedRef<Record<string, string>>\n}\n\nexport interface UseUrlListStateOptions {\n  defaultPageSize?: number\n  defaultSort?: string\n  history?: QueryHistoryMode\n}\n\nconst DEFAULT_PAGE = 1\nconst DEFAULT_PAGE_SIZE = 25\nconst MIN_PAGE_SIZE = 1\nconst MAX_PAGE_SIZE = 200\nconst DEFAULT_SORT = '+id'\nconst FILTER_PREFIX = 'filter['\nconst FILTER_SUFFIX = ']'\n\nexport function useQueryParam<T extends string | number | boolean>(\n  name: string,\n  opts?: UseQueryParamOptions<T>,\n): WritableComputedRef<T | null> {\n  const route = useRoute()\n  const router = useRouter()\n\n  const default_value: T | null = opts !== undefined && opts.default !== undefined ? opts.default : null\n  const history_mode: QueryHistoryMode = opts !== undefined && opts.history !== undefined ? opts.history : 'push'\n\n  return computed<T | null>({\n    get(): T | null {\n      const raw = route.query[name]\n      if (raw === undefined || raw === null) {\n        return default_value\n      }\n      const str = Array.isArray(raw) ? raw[0] : raw\n      if (str === null || str === undefined) {\n        return default_value\n      }\n      return parse_value<T>(str, default_value)\n    },\n    set(value: T | null): void {\n      const next: LocationQueryRaw = { ...route.query }\n      if (value === null || value === undefined) {\n        delete next[name]\n      } else {\n        next[name] = encode_value(value)\n      }\n      void apply_query(router, next, history_mode)\n    },\n  })\n}\n\nexport function useUrlListState(opts?: UseUrlListStateOptions): UrlListState {\n  const route = useRoute()\n  const router = useRouter()\n\n  const default_page_size: number = opts !== undefined && opts.defaultPageSize !== undefined\n    ? clamp_page_size(opts.defaultPageSize)\n    : DEFAULT_PAGE_SIZE\n  const default_sort: string = opts !== undefined && opts.defaultSort !== undefined\n    ? opts.defaultSort\n    : DEFAULT_SORT\n  const history_mode: QueryHistoryMode = opts !== undefined && opts.history !== undefined\n    ? opts.history\n    : 'push'\n\n  const page = computed<number>({\n    get(): number {\n      const raw = single_query_value(route.query.page)\n      if (raw === null) {\n        return DEFAULT_PAGE\n      }\n      const parsed = Number.parseInt(raw, 10)\n      if (Number.isNaN(parsed) || parsed < 1) {\n        return DEFAULT_PAGE\n      }\n      return parsed\n    },\n    set(value: number): void {\n      const next: LocationQueryRaw = { ...route.query }\n      if (value === DEFAULT_PAGE) {\n        delete next.page\n      } else {\n        next.page = String(value)\n      }\n      void apply_query(router, next, history_mode)\n    },\n  })\n\n  const pageSize = computed<number>({\n    get(): number {\n      const raw = single_query_value(route.query.page_size)\n      if (raw === null) {\n        return default_page_size\n      }\n      const parsed = Number.parseInt(raw, 10)\n      if (Number.isNaN(parsed)) {\n        return default_page_size\n      }\n      return clamp_page_size(parsed)\n    },\n    set(value: number): void {\n      const clamped = clamp_page_size(value)\n      const next: LocationQueryRaw = { ...route.query }\n      if (clamped === default_page_size) {\n        delete next.page_size\n      } else {\n        next.page_size = String(clamped)\n      }\n      void apply_query(router, next, history_mode)\n    },\n  })\n\n  const sort = computed<string>({\n    get(): string {\n      const raw = single_query_value(route.query.sort)\n      if (raw === null) {\n        return default_sort\n      }\n      return raw\n    },\n    set(value: string): void {\n      const next: LocationQueryRaw = { ...route.query }\n      if (value === default_sort) {\n        delete next.sort\n      } else {\n        next.sort = value\n      }\n      void apply_query(router, next, history_mode)\n    },\n  })\n\n  const filter = computed<Record<string, string>>({\n    get(): Record<string, string> {\n      const out: Record<string, string> = {}\n      for (const key of Object.keys(route.query)) {\n        if (!key.startsWith(FILTER_PREFIX) || !key.endsWith(FILTER_SUFFIX)) {\n          continue\n        }\n        const col = key.slice(FILTER_PREFIX.length, key.length - FILTER_SUFFIX.length)\n        if (col.length === 0) {\n          continue\n        }\n        const raw = single_query_value(route.query[key])\n        if (raw === null) {\n          continue\n        }\n        out[col] = raw\n      }\n      return out\n    },\n    set(value: Record<string, string>): void {\n      const next: LocationQueryRaw = { ...route.query }\n      for (const key of Object.keys(next)) {\n        if (key.startsWith(FILTER_PREFIX) && key.endsWith(FILTER_SUFFIX)) {\n          delete next[key]\n        }\n      }\n      for (const col of Object.keys(value)) {\n        const v = value[col]\n        if (v === undefined || v === null || v === '') {\n          continue\n        }\n        next[`${FILTER_PREFIX}${col}${FILTER_SUFFIX}`] = v\n      }\n      void apply_query(router, next, history_mode)\n    },\n  })\n\n  return { page, pageSize, sort, filter }\n}\n\nfunction parse_value<T extends string | number | boolean>(raw: string, default_value: T | null): T | null {\n  if (default_value === null) {\n    return raw as T\n  }\n  const default_type = typeof default_value\n  if (default_type === 'number') {\n    const parsed = Number(raw)\n    if (Number.isNaN(parsed)) {\n      return default_value\n    }\n    return parsed as T\n  }\n  if (default_type === 'boolean') {\n    if (raw === 'true' || raw === '1') {\n      return true as T\n    }\n    if (raw === 'false' || raw === '0') {\n      return false as T\n    }\n    return default_value\n  }\n  return raw as T\n}\n\nfunction encode_value<T extends string | number | boolean>(value: T): string {\n  const t = typeof value\n  if (t === 'boolean') {\n    return value === true ? 'true' : 'false'\n  }\n  return String(value)\n}\n\nfunction single_query_value(raw: unknown): string | null {\n  if (raw === undefined || raw === null) {\n    return null\n  }\n  if (Array.isArray(raw)) {\n    const first = raw[0]\n    if (first === undefined || first === null) {\n      return null\n    }\n    return String(first)\n  }\n  return String(raw)\n}\n\nfunction clamp_page_size(value: number): number {\n  if (Number.isNaN(value)) {\n    return DEFAULT_PAGE_SIZE\n  }\n  if (value < MIN_PAGE_SIZE) {\n    return MIN_PAGE_SIZE\n  }\n  if (value > MAX_PAGE_SIZE) {\n    return MAX_PAGE_SIZE\n  }\n  return Math.floor(value)\n}\n\nasync function apply_query(\n  router: ReturnType<typeof useRouter>,\n  query: LocationQueryRaw,\n  mode: QueryHistoryMode,\n): Promise<void> {\n  if (mode === 'replace') {\n    await router.replace({ query })\n    return\n  }\n  await router.push({ query })\n}\n\n// Re-export `watch` so consumers needing to react to URL state changes\n// don't have to re-import from 'vue' alongside this module. Keeps the\n// composable surface a single import target.\nexport { watch }\n";

/// `composables/dialog.ts`: a modal bound to URL state.
pub const DIALOG_TS: &'static str = "// dialog — modal-as-URL-state composable. Per SPEC_FRONTEND_ROUTING.md\n// (Modals are URL state), every dialog reflects in `?dialog=<name>` plus\n// optional `?dialog_id=<id>`. Refresh-survival, share-link, back-button-\n// closes-modal — all free.\n//\n// Default `history: 'push'` — opening/closing the dialog adds a history\n// entry. Override with `history: 'replace'` for transient overlays where\n// the back-button-closes-modal behaviour is undesirable.\n//\n// Mirrors `useQueryDrawer` (separate `?drawer=` key) so a dialog and a\n// drawer can be open simultaneously without colliding.\n\nimport { computed } from 'vue'\nimport type { ComputedRef } from 'vue'\nimport { useRoute, useRouter } from 'vue-router'\nimport type { LocationQueryRaw } from 'vue-router'\n\nexport type DialogId = number | string\n\nexport type DialogHistoryMode = 'push' | 'replace'\n\nexport interface UseQueryDialogParams {\n  id?: DialogId\n}\n\nexport interface UseQueryDialogOptions {\n  history?: DialogHistoryMode\n}\n\nexport interface QueryDialogHandle {\n  visible: ComputedRef<boolean>\n  id: ComputedRef<DialogId | null>\n  open: (params?: UseQueryDialogParams) => void\n  close: () => void\n}\n\nconst DIALOG_KEY = 'dialog'\nconst DIALOG_ID_KEY = 'dialog_id'\n\nexport function useQueryDialog(\n  name: string,\n  params?: UseQueryDialogParams,\n  opts?: UseQueryDialogOptions,\n): QueryDialogHandle {\n  const route = useRoute()\n  const router = useRouter()\n\n  const history_mode: DialogHistoryMode = opts !== undefined && opts.history !== undefined ? opts.history : 'push'\n  const initial_id: DialogId | null = params !== undefined && params.id !== undefined ? params.id : null\n\n  const visible = computed<boolean>(() => {\n    const raw = route.query[DIALOG_KEY]\n    if (raw === undefined || raw === null) {\n      return false\n    }\n    const str = Array.isArray(raw) ? raw[0] : raw\n    return str === name\n  })\n\n  const id = computed<DialogId | null>(() => {\n    if (!visible.value) {\n      return null\n    }\n    const raw = route.query[DIALOG_ID_KEY]\n    if (raw === undefined || raw === null) {\n      return null\n    }\n    const str = Array.isArray(raw) ? raw[0] : raw\n    if (str === null || str === undefined || str === '') {\n      return null\n    }\n    const as_num = Number(str)\n    if (!Number.isNaN(as_num) && /^-?\\d+(\\.\\d+)?$/.test(str)) {\n      return as_num\n    }\n    return str\n  })\n\n  function open(next_params?: UseQueryDialogParams): void {\n    const next: LocationQueryRaw = { ...route.query }\n    next[DIALOG_KEY] = name\n    const id_value: DialogId | null = next_params !== undefined && next_params.id !== undefined\n      ? next_params.id\n      : initial_id\n    if (id_value === null) {\n      delete next[DIALOG_ID_KEY]\n    } else {\n      next[DIALOG_ID_KEY] = String(id_value)\n    }\n    void apply_query(router, next, history_mode)\n  }\n\n  function close(): void {\n    const next: LocationQueryRaw = { ...route.query }\n    if (next[DIALOG_KEY] !== name) {\n      // Another dialog is open; do not stomp it.\n      return\n    }\n    delete next[DIALOG_KEY]\n    delete next[DIALOG_ID_KEY]\n    void apply_query(router, next, history_mode)\n  }\n\n  return { visible, id, open, close }\n}\n\nasync function apply_query(\n  router: ReturnType<typeof useRouter>,\n  query: LocationQueryRaw,\n  mode: DialogHistoryMode,\n): Promise<void> {\n  if (mode === 'replace') {\n    await router.replace({ query })\n    return\n  }\n  await router.push({ query })\n}\n";

/// `composables/drawer.ts`: a slide-out panel bound to URL state.
pub const DRAWER_TS: &'static str = "// drawer — sibling of useQueryDialog for slide-out panels. Same URL-as-\n// state contract; uses `?drawer=<name>` and `?drawer_id=<id>` so a\n// dialog and a drawer can be open simultaneously without colliding.\n// See SPEC_FRONTEND_ROUTING.md.\n\nimport { computed } from 'vue'\nimport type { ComputedRef } from 'vue'\nimport { useRoute, useRouter } from 'vue-router'\nimport type { LocationQueryRaw } from 'vue-router'\n\nexport type DrawerId = number | string\n\nexport type DrawerHistoryMode = 'push' | 'replace'\n\nexport interface UseQueryDrawerParams {\n  id?: DrawerId\n}\n\nexport interface UseQueryDrawerOptions {\n  history?: DrawerHistoryMode\n}\n\nexport interface QueryDrawerHandle {\n  visible: ComputedRef<boolean>\n  id: ComputedRef<DrawerId | null>\n  open: (params?: UseQueryDrawerParams) => void\n  close: () => void\n}\n\nconst DRAWER_KEY = 'drawer'\nconst DRAWER_ID_KEY = 'drawer_id'\n\nexport function useQueryDrawer(\n  name: string,\n  params?: UseQueryDrawerParams,\n  opts?: UseQueryDrawerOptions,\n): QueryDrawerHandle {\n  const route = useRoute()\n  const router = useRouter()\n\n  const history_mode: DrawerHistoryMode = opts !== undefined && opts.history !== undefined ? opts.history : 'push'\n  const initial_id: DrawerId | null = params !== undefined && params.id !== undefined ? params.id : null\n\n  const visible = computed<boolean>(() => {\n    const raw = route.query[DRAWER_KEY]\n    if (raw === undefined || raw === null) {\n      return false\n    }\n    const str = Array.isArray(raw) ? raw[0] : raw\n    return str === name\n  })\n\n  const id = computed<DrawerId | null>(() => {\n    if (!visible.value) {\n      return null\n    }\n    const raw = route.query[DRAWER_ID_KEY]\n    if (raw === undefined || raw === null) {\n      return null\n    }\n    const str = Array.isArray(raw) ? raw[0] : raw\n    if (str === null || str === undefined || str === '') {\n      return null\n    }\n    const as_num = Number(str)\n    if (!Number.isNaN(as_num) && /^-?\\d+(\\.\\d+)?$/.test(str)) {\n      return as_num\n    }\n    return str\n  })\n\n  function open(next_params?: UseQueryDrawerParams): void {\n    const next: LocationQueryRaw = { ...route.query }\n    next[DRAWER_KEY] = name\n    const id_value: DrawerId | null = next_params !== undefined && next_params.id !== undefined\n      ? next_params.id\n      : initial_id\n    if (id_value === null) {\n      delete next[DRAWER_ID_KEY]\n    } else {\n      next[DRAWER_ID_KEY] = String(id_value)\n    }\n    void apply_query(router, next, history_mode)\n  }\n\n  function close(): void {\n    const next: LocationQueryRaw = { ...route.query }\n    if (next[DRAWER_KEY] !== name) {\n      return\n    }\n    delete next[DRAWER_KEY]\n    delete next[DRAWER_ID_KEY]\n    void apply_query(router, next, history_mode)\n  }\n\n  return { visible, id, open, close }\n}\n\nasync function apply_query(\n  router: ReturnType<typeof useRouter>,\n  query: LocationQueryRaw,\n  mode: DrawerHistoryMode,\n): Promise<void> {\n  if (mode === 'replace') {\n    await router.replace({ query })\n    return\n  }\n  await router.push({ query })\n}\n";

/// `composables/channel.ts`: subscription to a websocket channel.
pub const CHANNEL_TS: &'static str = "// channel — low-level Relay WS subscription primitive. Per-resource\n// composables (Tier-3 live mode) layer on top of this; this composable\n// just registers the topic with the singleton WsClient on mount and\n// unregisters on unmount. WsClient handles reconnect; it re-subscribes\n// to all known topics, then per SPEC_RELAY.md the consumer composable\n// re-fetches from the DB on the resulting ack — there is no replay\n// buffer.\n//\n// Returns:\n//   lastEvent     — most recent event payload (null until first event).\n//   isSubscribed  — true while the topic is registered with WsClient.\n//\n// `onMessage` callback fires per event AND `lastEvent` updates\n// reactively. Either consumption pattern is valid.\n\nimport { computed, onMounted, onUnmounted, ref } from 'vue'\nimport type { ComputedRef, Ref } from 'vue'\n\nimport { wsClient } from '@/generated/ws/client'\n\nexport interface UseChannelOptions<T> {\n  onMessage?: (payload: T) => void\n}\n\nexport interface ChannelHandle<T> {\n  lastEvent: Ref<T | null>\n  isSubscribed: ComputedRef<boolean>\n}\n\nexport function useChannel<T>(topic: string, opts?: UseChannelOptions<T>): ChannelHandle<T> {\n  const last_event = ref<T | null>(null) as Ref<T | null>\n  const subscribed = ref<boolean>(false)\n  const is_subscribed = computed<boolean>(() => subscribed.value)\n\n  function handle(payload: T): void {\n    last_event.value = payload\n    if (opts !== undefined && opts.onMessage !== undefined) {\n      opts.onMessage(payload)\n    }\n  }\n\n  onMounted(() => {\n    wsClient.subscribe<T>(topic, handle)\n    subscribed.value = true\n  })\n\n  onUnmounted(() => {\n    wsClient.unsubscribe(topic, handle)\n    subscribed.value = false\n  })\n\n  return { lastEvent: last_event, isSubscribed: is_subscribed }\n}\n";

} // verus!
